//! A sample addon: a few stateless functions of the kind a host program
//! loads next to the server.

use vstd::prelude::*;
use vstd::string::*;

verus! {

/// Prepares the sample addon. There is nothing to prepare: returns 0.
pub fn defo_addon_init() -> (status: i32)
    ensures
        status == 0,
{
    0
}

/// The name under which the sample addon registers itself.
pub fn defo_addon_name() -> (name: String)
    ensures
        name@ == "sample.rust_addon"@,
{
    "sample.rust_addon".to_owned()
}

/// The sum of two integers. The sum has to fit.
pub fn rust_add(a: i32, b: i32) -> (sum: i32)
    requires
        i32::MIN <= a + b <= i32::MAX,
    ensures
        sum == a + b,
{
    a + b
}

/// The product of two integers. The product has to fit.
pub fn rust_mul(a: i32, b: i32) -> (product: i32)
    requires
        i32::MIN <= a * b <= i32::MAX,
    ensures
        product == a * b,
{
    a * b
}

/// 1 if `n` is even, 0 if it is odd.
pub fn rust_is_even(n: i32) -> (flag: i32)
    ensures
        flag == if n % 2 == 0 { 1i32 } else { 0i32 },
{
    if n % 2 == 0 {
        1
    } else {
        0
    }
}

/// The length of a text in bytes, as a 32-bit integer. A length beyond
/// `i32::MAX` is cut to its low 32 bits.
pub fn rust_strlen(text: &[u8]) -> (length: i32)
    ensures
        length == text@.len() as i32,
        text@.len() <= i32::MAX ==> length == text@.len(),
{
    #[verifier::truncate]
    (text.len() as i32)
}

/// The upper-case form of an ASCII lower-case letter; any other byte as it
/// is.
pub open spec fn upper_byte(byte: u8) -> u8 {
    if 0x61 <= byte <= 0x7a {
        (byte - 0x20) as u8
    } else {
        byte
    }
}

/// Turns the ASCII lower-case letters of a text into upper case.
///
/// The text is taken as bytes. Bytes outside `a..=z` are kept, among them
/// every byte of a multi-byte UTF-8 sequence, so UTF-8 text stays UTF-8
/// text of the same length.
pub fn rust_to_upper(text: &[u8]) -> (upper: Vec<u8>)
    ensures
        upper@ == text@.map_values(|byte: u8| upper_byte(byte)),
{
    let mut upper: Vec<u8> = Vec::new();
    let mut i: usize = 0;
    while i < text.len()
        invariant
            i <= text@.len(),
            upper@ == text@.take(i as int).map_values(|byte: u8| upper_byte(byte)),
        decreases text@.len() - i,
    {
        let byte: u8 = text[i];
        let mapped: u8 = if 0x61 <= byte && byte <= 0x7a {
            byte - 0x20
        } else {
            byte
        };
        upper.push(mapped);
        i += 1;
    }
    upper
}

/// The version of the sample addon.
pub fn rust_version() -> (version: String)
    ensures
        version@ == "0.1.0"@,
{
    "0.1.0".to_owned()
}

} // verus!
