#[test]
fn it_works() {
    let result = iq_dump::add(2, 2);
    assert_eq!(result, 4);
}
