use memory_arena::backing::{
    aligned_alloc, decimal_text, is_power_of_two, BlockRequest, ProviderReply,
};
use memory_arena::AllocError;

#[test]
fn powers_of_two() {
    assert!(!is_power_of_two(0));
    assert!(is_power_of_two(1));
    assert!(is_power_of_two(2));
    assert!(!is_power_of_two(3));
    assert!(is_power_of_two(1024));
    assert!(!is_power_of_two(1025));
    assert!(!is_power_of_two(6));
    assert!(is_power_of_two(1 << (usize::BITS - 1)));
    assert!(!is_power_of_two(usize::MAX));
}

#[test]
fn a_block_of_no_bytes_is_not_asked_for() {
    assert_eq!(aligned_alloc(0, 8), Err(AllocError::ZeroSizeAlloc));
}

#[test]
fn a_block_is_asked_for_as_it_stands() {
    assert_eq!(aligned_alloc(100, 64), Ok(BlockRequest { size: 100, alignment: 64 }));
}

#[test]
fn the_reply_is_read_by_its_code() {
    let request = BlockRequest { size: 100, alignment: 64 };
    assert_eq!(request.granted(&ProviderReply { errno: 0, address: 0x1000 }), Ok(0x1000));
    assert_eq!(
        request.granted(&ProviderReply { errno: 12, address: 0x1000 }),
        Err(AllocError::Errno(12))
    );
    assert_eq!(
        request.granted(&ProviderReply { errno: -1, address: 0 }),
        Err(AllocError::Errno(-1))
    );
}

#[test]
fn a_reply_honours_a_request() {
    let request = BlockRequest { size: 100, alignment: 64 };
    assert!(ProviderReply { errno: 0, address: 0x1000 }.honours(&request));
    assert!(ProviderReply { errno: 22, address: 0 }.honours(&request));
    assert!(!ProviderReply { errno: 0, address: 0 }.honours(&request));
    assert!(!ProviderReply { errno: 0, address: 0x1001 }.honours(&request));
    assert!(!ProviderReply { errno: 0, address: usize::MAX - 63 }.honours(&request));
    let last = BlockRequest { size: 63, alignment: 64 };
    assert!(ProviderReply { errno: 0, address: usize::MAX - 63 }.honours(&last));
    let broken = BlockRequest { size: 1, alignment: 0 };
    assert!(!ProviderReply { errno: 0, address: 0x1000 }.honours(&broken));
}

#[test]
fn an_error_says_what_went_wrong() {
    assert_eq!(AllocError::ZeroSizeAlloc.message(), "zero sized allocation is not supported");
    assert_eq!(AllocError::Errno(12).message(), "system allocation error number: 12");
    assert_eq!(AllocError::Errno(-7).message(), "system allocation error number: -7");
    assert_eq!(AllocError::Errno(0).message(), "system allocation error number: 0");
    assert_eq!(
        AllocError::Errno(i32::MIN).message(),
        "system allocation error number: -2147483648"
    );
}

#[test]
fn status_codes_in_decimal() {
    assert_eq!(decimal_text(0), "0");
    assert_eq!(decimal_text(9), "9");
    assert_eq!(decimal_text(10), "10");
    assert_eq!(decimal_text(12), "12");
    assert_eq!(decimal_text(-1), "-1");
    assert_eq!(decimal_text(1034567829), "1034567829");
    assert_eq!(decimal_text(i32::MAX), i32::MAX.to_string());
    assert_eq!(decimal_text(i32::MIN), i32::MIN.to_string());
}

#[test]
fn aligned_alloc_and_free() {
    let alignment = 1024;
    let request = aligned_alloc(alignment, ::core::mem::size_of::<isize>()).unwrap();
    assert_eq!(request.size, 1024);
    assert_eq!(request.alignment, ::core::mem::size_of::<isize>());
    let reply = ProviderReply { errno: 0, address: 0x7000 };
    assert!(reply.honours(&request));
    assert_eq!(request.granted(&reply), Ok(0x7000));
}
