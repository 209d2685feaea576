//! The device address that the object path of a device stands for.
//!
//! The last segment of the path of a device object reads `dev_` followed by
//! the six bytes of the hardware address in hexadecimal, separated by `_`.

use crate::text::{
    chars_of, hex_digit, is_hex_digit, join, join_chars, split, split_chars, string_of, upper,
    upper_chars, views,
};
use vstd::prelude::*;

verus! {

/// Number of `_`-separated pieces in the last segment of a device path.
pub const TOKEN_COUNT: usize = 7;

/// Why an object path names no device address.
#[derive(Clone, Copy, Debug, PartialEq, Eq, Structural)]
pub enum IdentityError {
    /// The last segment does not split into a prefix and six bytes.
    WrongTokenCount,
    /// The last segment does not start with `dev`.
    MissingPrefix,
    /// One of the six bytes is not written as two hexadecimal digits.
    InvalidByte,
}

/// The text `dev`.
pub open spec fn dev_prefix() -> Seq<char> {
    seq!['d', 'e', 'v']
}

/// The part of `path` after its last `/`, or all of it if it has none.
pub open spec fn device_segment(path: Seq<char>) -> Seq<char> {
    split(path, '/').last()
}

/// The `_`-separated pieces of the device segment of `path`.
pub open spec fn tokens_of(path: Seq<char>) -> Seq<Seq<char>> {
    split(device_segment(path), '_')
}

/// Whether `token` is one byte written as two hexadecimal digits.
pub open spec fn is_hex_byte(token: Seq<char>) -> bool {
    token.len() == 2 && is_hex_digit(token[0]) && is_hex_digit(token[1])
}

/// Whether the pieces after the first are six bytes in hexadecimal.
pub open spec fn all_hex_bytes(tokens: Seq<Seq<char>>) -> bool {
    forall|k: int| 1 <= k < tokens.len() ==> is_hex_byte(#[trigger] tokens[k])
}

/// The device address that `path` stands for, or the reason why it stands
/// for none. The address is the six bytes of the last segment, upper-cased
/// and separated by `:`.
pub open spec fn address_of(path: Seq<char>) -> Result<Seq<char>, IdentityError> {
    let tokens = tokens_of(path);
    if tokens.len() != TOKEN_COUNT {
        Err(IdentityError::WrongTokenCount)
    } else if tokens[0] != dev_prefix() {
        Err(IdentityError::MissingPrefix)
    } else if !all_hex_bytes(tokens) {
        Err(IdentityError::InvalidByte)
    } else {
        Ok(upper(join(tokens.skip(1), ':')))
    }
}

/// Whether `address` is six bytes as two upper-case hexadecimal digits each,
/// separated by `:`.
pub open spec fn is_canonical_address(address: Seq<char>) -> bool {
    &&& address.len() == 17
    &&& forall|i: int|
        0 <= i < 17 ==> if i % 3 == 2 {
            address[i] == ':'
        } else {
            is_hex_digit(#[trigger] address[i]) && !crate::text::is_ascii_lower(address[i])
        }
}

impl IdentityError {
    /// The text that describes the error.
    pub open spec fn message_text(&self) -> Seq<char> {
        match self {
            IdentityError::WrongTokenCount => "device segment is not a prefix and six bytes"@,
            IdentityError::MissingPrefix => "device segment does not start with dev"@,
            IdentityError::InvalidByte => "device segment holds a byte that is not two hexadecimal digits"@,
        }
    }

    /// A line of text for a log.
    pub fn message(&self) -> (text: String)
        ensures
            text@ == self.message_text(),
    {
        match self {
            IdentityError::WrongTokenCount => "device segment is not a prefix and six bytes".to_owned(),
            IdentityError::MissingPrefix => "device segment does not start with dev".to_owned(),
            IdentityError::InvalidByte => {
                "device segment holds a byte that is not two hexadecimal digits".to_owned()
            },
        }
    }
}

/// Tells whether `token` is `dev`.
fn is_dev_prefix(token: &Vec<char>) -> (r: bool)
    ensures
        r == (token@ == dev_prefix()),
{
    let r = token.len() == 3 && token[0] == 'd' && token[1] == 'e' && token[2] == 'v';
    if r {
        assert(token@ =~= dev_prefix());
    }
    r
}

/// Tells whether `token` is one byte written as two hexadecimal digits.
fn hex_byte(token: &Vec<char>) -> (r: bool)
    ensures
        r == is_hex_byte(token@),
{
    token.len() == 2 && hex_digit(token[0]) && hex_digit(token[1])
}

/// Derives the address of a device from the path of its object:
/// `/org/bluez/hci0/dev_F0_73_23_10_C7_3E` gives `F0:73:23:10:C7:3E`.
///
/// A path whose last segment is not `dev` and six hexadecimal bytes,
/// separated by `_`, is refused.
pub fn mac_address_from_dbus_path(path: &str) -> (r: Result<String, IdentityError>)
    ensures
        match r {
            Ok(address) => address_of(path@) == Ok::<Seq<char>, IdentityError>(address@),
            Err(e) => address_of(path@) == Err::<Seq<char>, IdentityError>(e),
        },
{
    let chars = chars_of(path);
    let segments = split_chars(&chars, '/');
    proof {
        crate::text::lemma_split_nonempty(chars@, '/');
    }
    let segment = &segments[segments.len() - 1];
    assert(segment@ == device_segment(path@));
    let tokens = split_chars(segment, '_');
    assert(views(tokens@) == tokens_of(path@));
    if tokens.len() != TOKEN_COUNT {
        return Err(IdentityError::WrongTokenCount);
    }
    assert(views(tokens@)[0] == tokens@[0]@);
    if !is_dev_prefix(&tokens[0]) {
        return Err(IdentityError::MissingPrefix);
    }
    let mut k: usize = 1;
    while k < tokens.len()
        invariant
            1 <= k <= tokens.len(),
            tokens.len() == TOKEN_COUNT,
            views(tokens@) == tokens_of(path@),
            tokens_of(path@)[0] == dev_prefix(),
            forall|j: int| 1 <= j < k ==> is_hex_byte(#[trigger] tokens_of(path@)[j]),
        decreases tokens.len() - k,
    {
        assert(views(tokens@)[k as int] == tokens@[k as int]@);
        if !hex_byte(&tokens[k]) {
            return Err(IdentityError::InvalidByte);
        }
        k = k + 1;
    }
    let joined = join_chars(&tokens, 1, ':');
    let address = upper_chars(&joined);
    Ok(string_of(&address))
}

/// An address derived from a path is canonical: six bytes as two upper-case
/// hexadecimal digits each, separated by `:`.
pub proof fn lemma_address_is_canonical(path: Seq<char>)
    requires
        address_of(path) is Ok,
    ensures
        is_canonical_address(address_of(path)->Ok_0),
{
    let tokens = tokens_of(path);
    let bytes = tokens.skip(1);
    assert forall|k: int| 0 <= k < 6 implies is_hex_byte(#[trigger] bytes[k]) by {
        assert(bytes[k] == tokens[k + 1]);
    }
    let b1 = bytes.take(1);
    let b2 = bytes.take(2);
    let b3 = bytes.take(3);
    let b4 = bytes.take(4);
    let b5 = bytes.take(5);
    let b6 = bytes.take(6);
    assert(b6 == bytes);
    assert(b2.drop_last() == b1);
    assert(b3.drop_last() == b2);
    assert(b4.drop_last() == b3);
    assert(b5.drop_last() == b4);
    assert(b6.drop_last() == b5);
    assert(join(b1, ':') == bytes[0]);
    assert(join(b2, ':') == join(b1, ':').push(':') + bytes[1]);
    assert(join(b3, ':') == join(b2, ':').push(':') + bytes[2]);
    assert(join(b4, ':') == join(b3, ':').push(':') + bytes[3]);
    assert(join(b5, ':') == join(b4, ':').push(':') + bytes[4]);
    assert(join(b6, ':') == join(b5, ':').push(':') + bytes[5]);
    let joined = join(bytes, ':');
    assert(joined.len() == 17);
    let address = upper(joined);
    assert forall|i: int| 0 <= i < 17 implies if i % 3 == 2 {
        address[i] == ':'
    } else {
        is_hex_digit(#[trigger] address[i]) && !crate::text::is_ascii_lower(address[i])
    } by {
        let k = i / 3;
        assert(is_hex_byte(bytes[k]));
        if i % 3 == 2 {
            assert(joined[i] == ':');
        } else {
            assert(joined[i] == bytes[k][i % 3]);
        }
    }
}

} // verus!
