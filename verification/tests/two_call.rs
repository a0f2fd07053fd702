use rusterizer::result::VkResult;
use rusterizer::text::{bytes_eq, str_eq};
use rusterizer::two_call::answer;

#[test]
fn count_only() {
    let mut count = 123;
    assert_eq!(answer(&[10u8, 20, 30], &mut count, None), VkResult::Success);
    assert_eq!(count, 3);
}

#[test]
fn short_buffer_gets_a_prefix_in_order() {
    let mut count = 2;
    let mut buffer = [0u8, 0, 9, 9];
    let r = answer(&[10u8, 20, 30], &mut count, Some(&mut buffer[..]));
    assert_eq!(r, VkResult::Incomplete);
    assert_eq!(count, 2);
    assert_eq!(buffer, [10, 20, 9, 9]);
}

#[test]
fn long_buffer_gets_all_and_keeps_its_tail() {
    let mut count = 5;
    let mut buffer = [7u8; 5];
    let r = answer(&[10u8, 20, 30], &mut count, Some(&mut buffer[..]));
    assert_eq!(r, VkResult::Success);
    assert_eq!(count, 3);
    assert_eq!(buffer, [10, 20, 30, 7, 7]);
}

#[test]
fn buffer_may_be_longer_than_it_is_declared() {
    let mut count = 1;
    let mut buffer = [7u8; 4];
    let r = answer(&[10u8, 20, 30], &mut count, Some(&mut buffer[..]));
    assert_eq!(r, VkResult::Incomplete);
    assert_eq!(count, 1);
    assert_eq!(buffer, [10, 7, 7, 7]);
}

#[test]
fn compares_strings_by_their_characters() {
    assert!(str_eq("", ""));
    assert!(str_eq("vkCreateInstance", "vkCreateInstance"));
    assert!(!str_eq("vkCreateInstance", "vkCreateInstanc"));
    assert!(!str_eq("vkCreateInstance", "vkCreateInstancf"));
    assert!(!str_eq("a", ""));
    assert!(str_eq("é", "\u{e9}"));
    assert!(bytes_eq(b"abc", b"abc"));
    assert!(!bytes_eq(b"abc", b"abd"));
    assert!(!bytes_eq(b"abc", b"ab"));
}
