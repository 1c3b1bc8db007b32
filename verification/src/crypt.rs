//! Keeping the keys of the account under a password.

use magic_crypt::{MagicCrypt256, MagicCryptError, MagicCryptTrait};
use vstd::prelude::*;

verus! {

/// The errors of the cipher.
#[verifier::external_type_specification]
#[verifier::external_body]
pub struct ExMagicCryptError(MagicCryptError);

/// What `text` becomes under the password `pass`, in base 64.
pub uninterp spec fn encrypted(pass: Seq<char>, text: Seq<char>) -> Seq<char>;

/// The text that became `cipher` under the password `pass`; nothing where no
/// text does.
pub uninterp spec fn decrypted(pass: Seq<char>, cipher: Seq<char>) -> Option<Seq<char>>;

/// Encrypts `text` with AES in 256 bits, by
/// `MagicCryptTrait::encrypt_str_to_base64`. The key is the SHA-256 digest of
/// the password and the first block is fixed, so that the same password and
/// text always give the same result. What it is, is named, not spelled out; it
/// decrypts to `text` again under the same password.
#[verifier::external_body]
pub(crate) fn encrypt(pass: &str, text: &str) -> (r: String)
    ensures
        r@ == encrypted(pass@, text@),
        decrypted(pass@, r@) == Some(text@),
{
    MagicCrypt256::new(pass, None::<String>).encrypt_str_to_base64(text)
}

/// Decrypts `cipher`, by `MagicCryptTrait::decrypt_base64_to_string`. It fails
/// where `cipher` is no base 64, where the last block has no proper padding
/// under this password, and where what comes out is no text.
#[verifier::external_body]
pub(crate) fn decrypt(pass: &str, cipher: &str) -> (r: Result<String, MagicCryptError>)
    ensures
        match r {
            Ok(text) => decrypted(pass@, cipher@) == Some(text@),
            Err(_) => decrypted(pass@, cipher@) is None,
        },
{
    MagicCrypt256::new(pass, None::<String>).decrypt_base64_to_string(cipher)
}

} // verus!
