use strings::debug_exact_size_truncation::{
    append_debug_list, format_debug_exact_size_truncated_to_max_length, ExactSizeIntoIterHolder,
};
use strings::debug_slice_truncation::{format_debug_slice_truncated_to_max_length, TruncatedDebug};
use strings::decimal::{append_decimal, append_signed_decimal};
use strings::element::DebugText;
use strings::source::{ExactSizeSource, SliceCursor};

fn debug_string_of<D: DebugText>(value: D) -> String {
    let mut text = String::new();
    value.append_debug(&mut text);
    text
}

#[test]
fn six_elements_at_five_are_truncated() {
    let text = format_debug_slice_truncated_to_max_length(&[1, 2, 3, 4, 5, 6], 5);
    assert_eq!(text, "(length=6 truncated to 5) [1, 2, 3, 4, 5]...");
}

#[test]
fn five_elements_at_five_are_listed_in_full() {
    let text = format_debug_slice_truncated_to_max_length(&[1, 2, 3, 4, 5], 5);
    assert_eq!(text, "[1, 2, 3, 4, 5]");
}

#[test]
fn four_elements_at_five_are_listed_in_full() {
    let text = format_debug_slice_truncated_to_max_length(&[1, 2, 3, 4], 5);
    assert_eq!(text, "[1, 2, 3, 4]");
}

#[test]
fn no_elements_at_zero_are_empty_brackets() {
    let nothing: [i32; 0] = [];
    let text = format_debug_slice_truncated_to_max_length(&nothing, 0);
    assert_eq!(text, "[]");
}

#[test]
fn five_elements_at_zero_give_the_length_only() {
    let text = format_debug_slice_truncated_to_max_length(&[1, 2, 3, 4, 5], 0);
    assert_eq!(text, "(length=5)");
}

#[test]
fn five_elements_at_four_are_truncated() {
    let text = format_debug_slice_truncated_to_max_length(&[1, 2, 3, 4, 5], 4);
    assert_eq!(text, "(length=5 truncated to 4) [1, 2, 3, 4]...");
}

#[test]
fn no_elements_at_a_positive_maximum_are_empty_brackets() {
    let nothing: [u8; 0] = [];
    assert_eq!(format_debug_slice_truncated_to_max_length(&nothing, 3), "[]");
}

#[test]
fn one_element_is_listed_without_a_separator() {
    assert_eq!(format_debug_slice_truncated_to_max_length(&[7u8], 1), "[7]");
    assert_eq!(
        format_debug_slice_truncated_to_max_length(&[7u8, 8u8], 1),
        "(length=2 truncated to 1) [7]..."
    );
}

#[test]
fn lengths_of_several_digits_are_written_in_decimal() {
    let data: Vec<u16> = (0..120).collect();
    let text = format_debug_slice_truncated_to_max_length(&data, 0);
    assert_eq!(text, "(length=120)");

    let text = format_debug_slice_truncated_to_max_length(&data, 100);
    assert!(text.starts_with("(length=120 truncated to 100) [0, 1, 2, "));
    assert!(text.ends_with(", 98, 99]..."));
}

#[test]
fn boundary_is_rendered_without_annotation() {
    for length in 1usize..=20 {
        let data: Vec<usize> = (1..=length).collect();
        let text = format_debug_slice_truncated_to_max_length(&data, length);
        assert_eq!(text, format!("{:?}", data));
        assert!(text.starts_with('['));
        assert!(text.ends_with(']'));
    }
}

#[test]
fn rendering_agrees_with_the_three_cases() {
    for length in 0usize..=6 {
        let data: Vec<i64> = (0..length).map(|i| 10 - 7 * (i as i64)).collect();
        for max_length in 0usize..=7 {
            let text = format_debug_slice_truncated_to_max_length(&data, max_length);
            let expected = if length <= max_length {
                format!("{:?}", data)
            } else if max_length == 0 {
                format!("(length={})", length)
            } else {
                format!(
                    "(length={} truncated to {}) {:?}...",
                    length,
                    max_length,
                    &data[0..max_length]
                )
            };
            assert_eq!(text, expected);
        }
    }
}

#[test]
fn rendering_twice_gives_the_same_text() {
    let data = [3, 1, 4, 1, 5, 9, 2, 6];
    for max_length in 0usize..=9 {
        let first = format_debug_slice_truncated_to_max_length(&data, max_length);
        let second = format_debug_slice_truncated_to_max_length(&data, max_length);
        assert_eq!(first, second);
    }
}

#[test]
fn bound_rendering_equals_direct_rendering() {
    let data = [3, 1, 4, 1, 5, 9, 2, 6];
    for max_length in 0usize..=9 {
        let direct = format_debug_slice_truncated_to_max_length(&data, max_length);
        let mut source = SliceCursor::new(&data);
        let from_source = format_debug_exact_size_truncated_to_max_length(&mut source, max_length);
        let handle = TruncatedDebug::with_max_length(&data, max_length);
        let holder = ExactSizeIntoIterHolder::with_max_length(SliceCursor::new(&data), max_length);

        assert_eq!(from_source, direct);
        assert_eq!(handle.format_debug_truncated_to_max_length(), direct);
        assert_eq!(holder.format_debug_truncated_to_max_length(), direct);
    }
}

#[test]
fn list_is_appended_after_what_the_buffer_holds() {
    let data = [10, 20, 30];
    let mut source = SliceCursor::new(&data);
    let mut out = String::from("seen: ");

    append_debug_list(&mut out, &mut source, 2);

    assert_eq!(out, "seen: [10, 20]");
    assert_eq!(source.len(), 1);

    append_debug_list(&mut out, &mut source, 0);
    assert_eq!(out, "seen: [10, 20][]");
    assert_eq!(source.len(), 1);
}

#[test]
fn cursor_yields_the_slice_in_order_once() {
    let data = [5, 6];
    let mut cursor = SliceCursor::new(&data);
    let copy = cursor;

    assert_eq!(cursor.len(), 2);
    assert_eq!(cursor.next(), Some(&5));
    assert_eq!(cursor.len(), 1);
    assert_eq!(cursor.next(), Some(&6));
    assert_eq!(cursor.len(), 0);
    assert_eq!(cursor.next(), None);
    assert_eq!(cursor.next(), None);
    assert_eq!(copy.len(), 2);
    assert_eq!(copy.clone().next(), Some(&5));
}

#[test]
fn unsigned_numbers_are_written_in_decimal() {
    for n in [0u128, 1, 2, 3, 4, 5, 6, 7, 8, 9, 10, 11, 99, 100, 101, 4096, 1_000_000, u64::MAX as u128, u128::MAX] {
        let mut out = String::from("n=");
        append_decimal(&mut out, n);
        assert_eq!(out, format!("n={}", n));
    }
}

#[test]
fn signed_numbers_are_written_in_decimal() {
    for n in [0i128, 1, -1, 9, -9, 10, -10, 12345, -12345, i64::MIN as i128, i128::MAX, i128::MIN] {
        let mut out = String::from("n=");
        append_signed_decimal(&mut out, n);
        assert_eq!(out, format!("n={}", n));
    }
}

#[test]
fn integers_render_as_their_debug_text() {
    assert_eq!(debug_string_of(0u8), "0");
    assert_eq!(debug_string_of(u8::MAX), "255");
    assert_eq!(debug_string_of(u16::MAX), "65535");
    assert_eq!(debug_string_of(u32::MAX), "4294967295");
    assert_eq!(debug_string_of(u64::MAX), "18446744073709551615");
    assert_eq!(debug_string_of(u128::MAX), format!("{:?}", u128::MAX));
    assert_eq!(debug_string_of(usize::MAX), format!("{:?}", usize::MAX));
    assert_eq!(debug_string_of(i8::MIN), "-128");
    assert_eq!(debug_string_of(i16::MIN), "-32768");
    assert_eq!(debug_string_of(i32::MIN), "-2147483648");
    assert_eq!(debug_string_of(i32::MAX), "2147483647");
    assert_eq!(debug_string_of(i64::MIN), "-9223372036854775808");
    assert_eq!(debug_string_of(i128::MIN), format!("{:?}", i128::MIN));
    assert_eq!(debug_string_of(isize::MIN), format!("{:?}", isize::MIN));
    assert_eq!(debug_string_of(-7i32), "-7");
}

#[test]
fn truth_values_and_references_render_as_their_debug_text() {
    assert_eq!(debug_string_of(true), "true");
    assert_eq!(debug_string_of(false), "false");
    assert_eq!(debug_string_of(&-42i64), "-42");
    assert_eq!(
        format_debug_slice_truncated_to_max_length(&[true, false, true], 2),
        "(length=3 truncated to 2) [true, false]..."
    );
    assert_eq!(
        format_debug_slice_truncated_to_max_length(&[-1i8, 0, 1], 3),
        "[-1, 0, 1]"
    );
}

#[test]
fn list_of_more_than_is_left_shows_what_is_left() {
    let data = [10, 20, 30];
    let mut source = SliceCursor::new(&data);
    assert_eq!(source.next(), Some(&10));
    let mut out = String::new();

    append_debug_list(&mut out, &mut source, 7);

    assert_eq!(out, "[20, 30]");
    assert_eq!(source.len(), 0);
}

#[test]
fn options_render_as_their_debug_text() {
    let absent: Option<u8> = None;
    assert_eq!(debug_string_of(absent), "None");
    assert_eq!(debug_string_of(Some(-3i16)), "Some(-3)");
    assert_eq!(debug_string_of(Some(Some(true))), "Some(Some(true))");
    assert_eq!(
        format_debug_slice_truncated_to_max_length(&[Some(1u8), None, Some(3u8)], 2),
        format!("(length=3 truncated to 2) {:?}...", [Some(1u8), None])
    );
}

#[test]
fn vectors_render_as_their_full_listing() {
    let empty: Vec<i32> = Vec::new();
    assert_eq!(debug_string_of(empty), "[]");
    assert_eq!(debug_string_of(vec![1u64, 2, 3]), "[1, 2, 3]");

    let rows = vec![vec![1, 2, 3], vec![], vec![4], vec![5, 6]];
    assert_eq!(
        format_debug_slice_truncated_to_max_length(&rows, 3),
        "(length=4 truncated to 3) [[1, 2, 3], [], [4]]..."
    );
    assert_eq!(
        format_debug_slice_truncated_to_max_length(&rows, 4),
        format!("{:?}", rows)
    );
}
