use giganto_proc_macro::cast::force_cast_each;
use giganto_proc_macro::kinds::NumericKind;

#[test]
fn a_value_that_fits_is_kept() {
    assert_eq!(NumericKind::U8.force_cast(0), 0);
    assert_eq!(NumericKind::U8.force_cast(255), 255);
    assert_eq!(NumericKind::U16.force_cast(8080), 8080);
    assert_eq!(NumericKind::U32.force_cast(4_294_967_295), 4_294_967_295);
    assert_eq!(NumericKind::U64.force_cast(i64::MAX), 9_223_372_036_854_775_807);
    assert_eq!(NumericKind::I8.force_cast(-128), -128);
    assert_eq!(NumericKind::I16.force_cast(-32_768), -32_768);
    assert_eq!(NumericKind::I32.force_cast(2_147_483_647), 2_147_483_647);
    assert_eq!(NumericKind::Usize.force_cast(7), 7);
}

#[test]
fn a_value_that_does_not_fit_wraps() {
    assert_eq!(NumericKind::U8.force_cast(256), 0);
    assert_eq!(NumericKind::U8.force_cast(-1), 255);
    assert_eq!(NumericKind::U16.force_cast(70_000), 4_464);
    assert_eq!(NumericKind::U32.force_cast(-1), 4_294_967_295);
    assert_eq!(NumericKind::U64.force_cast(-1), 18_446_744_073_709_551_615);
    assert_eq!(NumericKind::I8.force_cast(200), -56);
    assert_eq!(NumericKind::I16.force_cast(40_000), -25_536);
    assert_eq!(NumericKind::I32.force_cast(2_147_483_648), -2_147_483_648);
    assert_eq!(NumericKind::Usize.force_cast(-1), usize::MAX as i128);
}

#[test]
fn a_forced_cast_is_what_as_computes() {
    for wide in [i64::MIN, -70_000, -129, -1, 0, 1, 127, 128, 255, 256, 65_536, i64::MAX] {
        assert_eq!(NumericKind::U8.force_cast(wide), (wide as u8) as i128);
        assert_eq!(NumericKind::U16.force_cast(wide), (wide as u16) as i128);
        assert_eq!(NumericKind::U32.force_cast(wide), (wide as u32) as i128);
        assert_eq!(NumericKind::U64.force_cast(wide), (wide as u64) as i128);
        assert_eq!(NumericKind::I8.force_cast(wide), (wide as i8) as i128);
        assert_eq!(NumericKind::I16.force_cast(wide), (wide as i16) as i128);
        assert_eq!(NumericKind::I32.force_cast(wide), (wide as i32) as i128);
        assert_eq!(NumericKind::Usize.force_cast(wide), (wide as usize) as i128);
    }
}

#[test]
fn the_cast_of_a_sequence_keeps_length_and_order() {
    let wide: Vec<i64> = vec![1, 256, -1, 300, 0, 255];
    let narrow = force_cast_each(NumericKind::U8, &wide);
    assert_eq!(narrow, vec![1, 0, 255, 44, 0, 255]);
    assert_eq!(narrow.len(), wide.len());
    assert_eq!(force_cast_each(NumericKind::I32, &Vec::new()), Vec::<i128>::new());
}

#[test]
fn the_cast_of_a_sequence_is_what_the_generated_expression_computes() {
    let wide: Vec<i64> = vec![64, -64, 1_000, 70_000, i64::MAX, i64::MIN];
    let generated: Vec<u16> = wide.clone().into_iter().map(|x| x as _).collect();
    let expected: Vec<i128> = generated.into_iter().map(i128::from).collect();
    assert_eq!(force_cast_each(NumericKind::U16, &wide), expected);
}
