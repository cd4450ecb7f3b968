use vstd::prelude::*;

use crate::bytes::zero_bytes;
use crate::encryption::{kdf, kdf_message, kdf_root, KdfOutput};
use crate::keys::fill_random;

verus! {

/// The keyring entry handle of the operating-system keychain.
#[verifier::external_type_specification]
#[verifier::external_body]
pub struct ExEntry(keyring::Entry);

/// The error type of the operating-system keychain.
#[verifier::external_type_specification]
#[verifier::external_body]
pub struct ExKeyringError(keyring::Error);

/// Relies on `keyring::Entry::new`: builds the keychain entry for a service
/// and key name. The outcome depends on the platform's secret store, so
/// nothing is promised of it.
#[verifier::external_body]
fn keyring_entry(service: &str, name: &str) -> (r: Result<keyring::Entry, keyring::Error>) {
    keyring::Entry::new(service, name)
}

/// Relies on `keyring::Entry::get_password`: reads the stored secret, if any.
/// The outcome depends on the operating-system keychain.
#[verifier::external_body]
fn entry_get_password(entry: &keyring::Entry) -> (r: Option<String>) {
    entry.get_password().ok()
}

/// Relies on `keyring::Entry::set_password`: writes the secret to the
/// operating-system keychain.
#[verifier::external_body]
fn entry_set_password(entry: &keyring::Entry, key: &str) -> (r: Result<(), keyring::Error>) {
    entry.set_password(key)
}

/// The keychain entry of this application for one key class.
pub fn get_keyring_entry(key_type: &str) -> (r: Result<keyring::Entry, keyring::Error>) {
    keyring_entry("enchat", key_type)
}

/// Reads a key of the given class from the operating-system keychain, or
/// `None` when the keychain is unavailable or holds no such key.
pub fn get_key_keyring(key_type: &str) -> (r: Option<String>) {
    match get_keyring_entry(key_type) {
        Ok(entry) => entry_get_password(&entry),
        Err(_) => None,
    }
}

/// Stores a key of the given class in the operating-system keychain.
pub fn store_key_keyring(key_type: &str, key: &str) -> (r: Result<(), keyring::Error>) {
    match get_keyring_entry(key_type) {
        Ok(entry) => entry_set_password(&entry, key),
        Err(e) => Err(e),
    }
}

/// Derives a fresh database key: 64 bytes of operating-system randomness
/// expanded through the KDF into a well-formed output pair.
pub fn generate_database_key() -> (r: KdfOutput)
    ensures
        r.wf(),
        exists|b: Seq<u8>| b.len() == 64 && r.0@ == kdf_root(b) && r.1@ == kdf_message(b),
{
    let mut random = zero_bytes(64);
    fill_random(&mut random);
    kdf(random)
}

/// The lowercase hex character of one nibble.
pub open spec fn hex_digit(n: u8) -> char {
    if n == 0 {
        '0'
    } else if n == 1 {
        '1'
    } else if n == 2 {
        '2'
    } else if n == 3 {
        '3'
    } else if n == 4 {
        '4'
    } else if n == 5 {
        '5'
    } else if n == 6 {
        '6'
    } else if n == 7 {
        '7'
    } else if n == 8 {
        '8'
    } else if n == 9 {
        '9'
    } else if n == 10 {
        'a'
    } else if n == 11 {
        'b'
    } else if n == 12 {
        'c'
    } else if n == 13 {
        'd'
    } else if n == 14 {
        'e'
    } else {
        'f'
    }
}

/// The lowercase hex rendering of a byte string, two digits per byte, high
/// nibble first.
pub open spec fn hex_of(bytes: Seq<u8>) -> Seq<char> {
    Seq::new(
        bytes.len() * 2,
        |i: int|
            if i % 2 == 0 {
                hex_digit(bytes[i / 2] / 16)
            } else {
                hex_digit(bytes[i / 2] % 16)
            },
    )
}

/// Returns the one-character string of a nibble's hex digit.
fn hex_digit_str(n: u8) -> (r: &'static str)
    requires
        n < 16,
    ensures
        r@ == seq![hex_digit(n)],
{
    if n == 0 {
        proof {
            reveal_strlit("0");
            assert("0"@ =~= seq![hex_digit(n)]);
        }
        "0"
    } else if n == 1 {
        proof {
            reveal_strlit("1");
            assert("1"@ =~= seq![hex_digit(n)]);
        }
        "1"
    } else if n == 2 {
        proof {
            reveal_strlit("2");
            assert("2"@ =~= seq![hex_digit(n)]);
        }
        "2"
    } else if n == 3 {
        proof {
            reveal_strlit("3");
            assert("3"@ =~= seq![hex_digit(n)]);
        }
        "3"
    } else if n == 4 {
        proof {
            reveal_strlit("4");
            assert("4"@ =~= seq![hex_digit(n)]);
        }
        "4"
    } else if n == 5 {
        proof {
            reveal_strlit("5");
            assert("5"@ =~= seq![hex_digit(n)]);
        }
        "5"
    } else if n == 6 {
        proof {
            reveal_strlit("6");
            assert("6"@ =~= seq![hex_digit(n)]);
        }
        "6"
    } else if n == 7 {
        proof {
            reveal_strlit("7");
            assert("7"@ =~= seq![hex_digit(n)]);
        }
        "7"
    } else if n == 8 {
        proof {
            reveal_strlit("8");
            assert("8"@ =~= seq![hex_digit(n)]);
        }
        "8"
    } else if n == 9 {
        proof {
            reveal_strlit("9");
            assert("9"@ =~= seq![hex_digit(n)]);
        }
        "9"
    } else if n == 10 {
        proof {
            reveal_strlit("a");
            assert("a"@ =~= seq![hex_digit(n)]);
        }
        "a"
    } else if n == 11 {
        proof {
            reveal_strlit("b");
            assert("b"@ =~= seq![hex_digit(n)]);
        }
        "b"
    } else if n == 12 {
        proof {
            reveal_strlit("c");
            assert("c"@ =~= seq![hex_digit(n)]);
        }
        "c"
    } else if n == 13 {
        proof {
            reveal_strlit("d");
            assert("d"@ =~= seq![hex_digit(n)]);
        }
        "d"
    } else if n == 14 {
        proof {
            reveal_strlit("e");
            assert("e"@ =~= seq![hex_digit(n)]);
        }
        "e"
    } else {
        proof {
            reveal_strlit("f");
            assert("f"@ =~= seq![hex_digit(n)]);
        }
        "f"
    }
}

impl KdfOutput {
    /// Renders the first output half as its 64 lowercase hex characters: the
    /// form under which the database key is stored in the keychain.
    pub fn to_hex(&self) -> (r: String)
        requires
            self.wf(),
        ensures
            r@ == hex_of(self.0@),
            r@.len() == 64,
    {
        let mut out = String::new();
        let mut i: usize = 0;
        while i < self.0.len()
            invariant
                i <= self.0@.len(),
                self.0@.len() == 32,
                out@ == hex_of(self.0@).take(2 * i as int),
            decreases self.0@.len() - i,
        {
            let b = self.0[i];
            out.append(hex_digit_str(b / 16));
            out.append(hex_digit_str(b % 16));
            i = i + 1;
            proof {
                assert(out@ =~= hex_of(self.0@).take(2 * i as int));
            }
        }
        proof {
            assert(hex_of(self.0@).take(64) =~= hex_of(self.0@));
        }
        out
    }
}

} // verus!
