use solid_modeling::text::push_decimal;

#[test]
fn decimal_numerals() {
    for (n, text) in [(0usize, "0"), (7, "7"), (10, "10"), (305, "305"), (usize::MAX, "18446744073709551615")] {
        let mut s = String::from("n=");
        push_decimal(&mut s, n);
        assert_eq!(s, format!("n={}", text));
    }
}
