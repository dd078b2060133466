use vstd::prelude::*;
use vstd::string::StringExecFns;

use crate::downloader::Error;

verus! {

/// The MD5 digest of a byte sequence, as its 16 digest bytes.
pub uninterp spec fn md5_digest(data: Seq<u8>) -> Seq<u8>;

/// Relies on `md5::compute`: the digest depends on the input bytes alone,
/// and `md5::Digest` is 16 bytes by its type.
#[verifier::external_body]
fn compute_md5(data: &Vec<u8>) -> (r: Vec<u8>)
    ensures
        r@ == md5_digest(data@),
        r@.len() == 16,
{
    md5::compute(data).0.to_vec()
}

/// The lowercase hexadecimal digit for a value below 16.
pub open spec fn hex_digit(n: u8) -> char
    recommends
        n < 16,
{
    if n == 0 {
        '0'
    } else if n == 1 {
        '1'
    } else if n == 2 {
        '2'
    } else if n == 3 {
        '3'
    } else if n == 4 {
        '4'
    } else if n == 5 {
        '5'
    } else if n == 6 {
        '6'
    } else if n == 7 {
        '7'
    } else if n == 8 {
        '8'
    } else if n == 9 {
        '9'
    } else if n == 10 {
        'a'
    } else if n == 11 {
        'b'
    } else if n == 12 {
        'c'
    } else if n == 13 {
        'd'
    } else if n == 14 {
        'e'
    } else {
        'f'
    }
}

/// The lowercase hexadecimal rendering of a byte sequence: two digits per
/// byte, high nibble first.
pub open spec fn hex_of(data: Seq<u8>) -> Seq<char> {
    Seq::new(
        data.len() * 2,
        |i: int|
            if i % 2 == 0 {
                hex_digit(data[i / 2] / 16)
            } else {
                hex_digit(data[i / 2] % 16)
            },
    )
}

/// One hexadecimal digit as a string slice.
fn hex_digit_str(n: u8) -> (r: &'static str)
    requires
        n < 16,
    ensures
        r@.len() == 1,
        r@[0] == hex_digit(n),
{
    proof {
        reveal_strlit("0");
        reveal_strlit("1");
        reveal_strlit("2");
        reveal_strlit("3");
        reveal_strlit("4");
        reveal_strlit("5");
        reveal_strlit("6");
        reveal_strlit("7");
        reveal_strlit("8");
        reveal_strlit("9");
        reveal_strlit("a");
        reveal_strlit("b");
        reveal_strlit("c");
        reveal_strlit("d");
        reveal_strlit("e");
        reveal_strlit("f");
    }
    if n == 0 {
        "0"
    } else if n == 1 {
        "1"
    } else if n == 2 {
        "2"
    } else if n == 3 {
        "3"
    } else if n == 4 {
        "4"
    } else if n == 5 {
        "5"
    } else if n == 6 {
        "6"
    } else if n == 7 {
        "7"
    } else if n == 8 {
        "8"
    } else if n == 9 {
        "9"
    } else if n == 10 {
        "a"
    } else if n == 11 {
        "b"
    } else if n == 12 {
        "c"
    } else if n == 13 {
        "d"
    } else if n == 14 {
        "e"
    } else {
        "f"
    }
}

/// Renders bytes as lowercase hexadecimal, two digits per byte.
pub fn to_hex(data: &Vec<u8>) -> (r: String)
    ensures
        r@ == hex_of(data@),
{
    let mut r = String::new();
    let mut i: usize = 0;
    while i < data.len()
        invariant
            i <= data.len(),
            r@ =~= hex_of(data@).take(2 * i as int),
        decreases data.len() - i,
    {
        let b = data[i];
        r.append(hex_digit_str(b / 16));
        r.append(hex_digit_str(b % 16));
        proof {
            assert(r@ =~= hex_of(data@).take(2 * (i + 1)));
        }
        i += 1;
    }
    proof {
        assert(hex_of(data@).take(2 * data@.len() as int) =~= hex_of(data@));
    }
    r
}

/// The terminal message for a file whose download succeeded: the
/// lowercase hexadecimal MD5 digest of the bytes it ended with.
pub fn digest_message(data: &Vec<u8>) -> (r: String)
    ensures
        r@ == hex_of(md5_digest(data@)),
{
    let d = compute_md5(data);
    to_hex(&d)
}

/// The text a failure reason is reported with.
pub open spec fn failure_text(e: Error) -> Seq<char> {
    match e {
        Error::InvalidUrl => "Invalid URL"@,
        Error::DownloadFail => "Download failed"@,
        Error::InvalidResponse => "Response status was not a success"@,
        Error::IoError => "Writing file failed"@,
    }
}

/// The terminal message for a file whose download failed.
pub fn failure_message(e: &Error) -> (r: &'static str)
    ensures
        r@ == failure_text(*e),
{
    match e {
        Error::InvalidUrl => "Invalid URL",
        Error::DownloadFail => "Download failed",
        Error::InvalidResponse => "Response status was not a success",
        Error::IoError => "Writing file failed",
    }
}

} // verus!
