use bin_integer::FullAdder;

#[test]
fn truth_table() {
    assert_eq!(FullAdder::add(false, false, false), (false, false));
    assert_eq!(FullAdder::add(false, false, true), (true, false));
    assert_eq!(FullAdder::add(false, true, false), (true, false));
    assert_eq!(FullAdder::add(false, true, true), (false, true));
    assert_eq!(FullAdder::add(true, false, false), (true, false));
    assert_eq!(FullAdder::add(true, false, true), (false, true));
    assert_eq!(FullAdder::add(true, true, false), (false, true));
    assert_eq!(FullAdder::add(true, true, true), (true, true));
}

#[test]
fn outputs_count_the_set_inputs() {
    for row in 0..8u8 {
        let (a, b, cin) = (row & 4 != 0, row & 2 != 0, row & 1 != 0);
        let (sum, carry) = FullAdder::add(a, b, cin);
        let ones = u8::from(a) + u8::from(b) + u8::from(cin);
        assert_eq!(u8::from(sum) + 2 * u8::from(carry), ones);
        assert_eq!(sum, ones % 2 == 1);
        assert_eq!(carry, ones >= 2);
    }
}
