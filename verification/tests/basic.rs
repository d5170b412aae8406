use pulse_core::add3;
use pulse_core::hello_world;

#[test]
fn it_works() {
    let result = add3(2, 2);
    assert_eq!(result, 4);
}

#[test]
fn lib_test_hello_world() {
    let result = hello_world();
    assert_eq!(result, "Hello, World!");
}
