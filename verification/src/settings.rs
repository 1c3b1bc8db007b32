//! The settings: the keys of the account, and how the program starts.

use crate::crypt;
use crate::intv::Intv;
use crate::keymap::KeyMap;
pub use crate::live::KeysStatus;
use crate::live::LiveInfo;
use crate::message::{BinInstructs, ClientInstruct};
use crate::num;
use crate::num::Number;
use vstd::prelude::*;

verus! {

/// How many characters a password must have.
pub const PASSWORD_MIN: usize = 16;

/// Why keys could not be encrypted or decrypted.
#[derive(Debug, Clone, Copy, PartialEq, Eq, Structural)]
pub enum KeysError {
    /// There is no public key.
    NoPublicKey,
    /// There is a public key, but no private one.
    NoPrivateKey,
    /// The public key does not decrypt under this password.
    PublicKey,
    /// The public key does, the private one does not.
    PrivateKey,
}

impl KeysError {
    /// What went wrong, for a log.
    pub fn to_str(&self) -> (r: &'static str)
        ensures
            r@ == (match *self {
                KeysError::NoPublicKey => "Pub key string not found!"@,
                KeysError::NoPrivateKey => "Private key string not found!"@,
                KeysError::PublicKey => "Unable to decrypt the public key"@,
                KeysError::PrivateKey => "Unable to decrypt the private key"@,
            }),
    {
        match self {
            KeysError::NoPublicKey => "Pub key string not found!",
            KeysError::NoPrivateKey => "Private key string not found!",
            KeysError::PublicKey => "Unable to decrypt the public key",
            KeysError::PrivateKey => "Unable to decrypt the private key",
        }
    }
}

/// The keys of an account: in the clear, and encrypted.
pub struct Keys {
    pub public: Option<Seq<char>>,
    pub private: Option<Seq<char>>,
    pub enc_public: Option<Seq<char>>,
    pub enc_private: Option<Seq<char>>,
}

/// No keys.
pub open spec fn no_keys() -> Keys {
    Keys { public: None, private: None, enc_public: None, enc_private: None }
}

/// A password of this text is long enough: it has sixteen characters or more.
pub open spec fn long_enough(password: Seq<char>) -> bool {
    password.len() >= PASSWORD_MIN
}

/// What becomes of keys that are to be encrypted. Under a password that is too
/// short nothing does. Both keys are needed; a public key without a private one
/// is lost.
pub open spec fn after_encrypt(k: Keys, pass: Seq<char>) -> (Keys, Result<(), KeysError>) {
    if !long_enough(pass) {
        (k, Ok(()))
    } else {
        match (k.public, k.private) {
            (None, _) => (k, Err(KeysError::NoPublicKey)),
            (Some(_), None) => (Keys { public: None, ..k }, Err(KeysError::NoPrivateKey)),
            (Some(p), Some(q)) => (
                Keys {
                    public: None,
                    private: None,
                    enc_public: Some(crypt::encrypted(pass, p)),
                    enc_private: Some(crypt::encrypted(pass, q)),
                },
                Ok(()),
            ),
        }
    }
}

/// What becomes of keys that are to be decrypted. Both encrypted keys are
/// needed; those that are there are used up, whether they decrypt or not.
pub open spec fn after_decrypt(k: Keys, pass: Seq<char>) -> (Keys, Result<(), KeysError>) {
    match (k.enc_public, k.enc_private) {
        (None, _) => (k, Err(KeysError::NoPublicKey)),
        (Some(_), None) => (Keys { enc_public: None, ..k }, Err(KeysError::NoPrivateKey)),
        (Some(p), Some(q)) => {
            let used = Keys { enc_public: None, enc_private: None, ..k };
            match (crypt::decrypted(pass, p), crypt::decrypted(pass, q)) {
                (None, _) => (used, Err(KeysError::PublicKey)),
                (Some(_), None) => (used, Err(KeysError::PrivateKey)),
                (Some(a), Some(b)) => (
                    Keys { public: Some(a), private: Some(b), ..used },
                    Ok(()),
                ),
            }
        },
    }
}

/// The keys that go into the file: encrypted where there is a password; without
/// one they go in as they are, or not at all where they are not to be kept.
pub open spec fn after_save(k: Keys, password: Option<Seq<char>>, keep: bool) -> Keys {
    match password {
        Some(pass) => after_encrypt(k, pass).0,
        None => if keep {
            k
        } else {
            no_keys()
        },
    }
}

/// The text in `s`.
pub open spec fn text_of(s: Option<String>) -> Option<Seq<char>> {
    match s {
        Some(t) => Some(t@),
        None => None,
    }
}

/// The settings.
#[derive(Debug)]
pub struct Settings<F> {
    pub enc_pub_key: Vec<u8>,
    pub enc_priv_key: Vec<u8>,
    pub api_key_enter_string: String,
    pub priv_api_key_enter_string: String,
    pub default_asset: String,
    pub default_intv: Intv,
    pub enc_api_keys: bool,
    pub save_api_keys: bool,
    pub defalt_next_wicks: i64,
    pub binance_pub_key: Option<String>,
    pub binance_priv_key: Option<String>,
    pub enc_binance_pub_key: Option<String>,
    pub enc_binance_priv_key: Option<String>,
    pub password_string: String,
    pub backload_wicks: usize,
    pub key_status: KeysStatus,
    pub balances: KeyMap<String, (F, F)>,
}

/// A button of the window of settings.
#[derive(Debug)]
pub enum Button<F> {
    Save,
    /// Load, with the settings that the file held, where it could be read.
    Load(Option<Settings<F>>),
    Remove,
    Unlock,
    Refresh,
}

/// What came of a round of the window of settings.
#[derive(Debug)]
pub struct Handled<F, S> {
    /// The message to send, if any, or why the keys are still locked.
    pub sent: Result<Option<ClientInstruct<F, S>>, KeysError>,
    /// The settings are to go into the file now.
    pub write: bool,
}

/// Whether both amounts of a balance are zero.
pub open spec fn empty_balance<F: Number>(b: (F, F)) -> bool {
    num::equal(b.0, num::lit(0)) && num::equal(b.1, num::lit(0))
}

/// The first `n` entries without those of empty balances.
pub open spec fn shown<F: Number>(entries: Seq<(String, (F, F))>, n: int) -> Seq<
    (Seq<char>, F, F),
>
    decreases n,
{
    if n <= 0 {
        Seq::empty()
    } else {
        let e = entries[n - 1];
        let rest = shown(entries, n - 1);
        if empty_balance(e.1) {
            rest
        } else {
            rest.push((e.0@, e.1.0, e.1.1))
        }
    }
}

impl<F: Number> Settings<F> {
    /// Each asset has one balance.
    pub open spec fn wf(&self) -> bool {
        self.balances.wf()
    }

    /// The keys.
    pub open spec fn keys(&self) -> Keys {
        Keys {
            public: text_of(self.binance_pub_key),
            private: text_of(self.binance_priv_key),
            enc_public: text_of(self.enc_binance_pub_key),
            enc_private: text_of(self.enc_binance_priv_key),
        }
    }

    /// Nothing is typed into the fields for the password and the keys.
    pub open spec fn nothing_typed(&self) -> bool {
        &&& self.password_string@ == Seq::<char>::empty()
        &&& self.api_key_enter_string@ == Seq::<char>::empty()
        &&& self.priv_api_key_enter_string@ == Seq::<char>::empty()
    }

    /// What is typed into the fields is as in `other`.
    pub open spec fn same_typed(&self, other: &Self) -> bool {
        &&& self.password_string == other.password_string
        &&& self.api_key_enter_string == other.api_key_enter_string
        &&& self.priv_api_key_enter_string == other.priv_api_key_enter_string
    }

    /// All but the keys and what is typed is as in `other`.
    pub open spec fn same_rest(&self, other: &Self) -> bool {
        &&& self.enc_pub_key == other.enc_pub_key
        &&& self.enc_priv_key == other.enc_priv_key
        &&& self.default_asset == other.default_asset
        &&& self.default_intv == other.default_intv
        &&& self.enc_api_keys == other.enc_api_keys
        &&& self.save_api_keys == other.save_api_keys
        &&& self.defalt_next_wicks == other.defalt_next_wicks
        &&& self.backload_wicks == other.backload_wicks
        &&& self.key_status == other.key_status
        &&& self.balances == other.balances
    }

    /// These are the settings `other`.
    pub open spec fn copies(&self, other: &Self) -> bool {
        &&& self.keys() == other.keys()
        &&& self.same_typed(other)
        &&& self.enc_pub_key@ == other.enc_pub_key@
        &&& self.enc_priv_key@ == other.enc_priv_key@
        &&& self.default_asset == other.default_asset
        &&& self.default_intv == other.default_intv
        &&& self.enc_api_keys == other.enc_api_keys
        &&& self.save_api_keys == other.save_api_keys
        &&& self.defalt_next_wicks == other.defalt_next_wicks
        &&& self.backload_wicks == other.backload_wicks
        &&& self.key_status == other.key_status
        &&& self.balances@ == other.balances@
    }

    /// The settings of a first start.
    pub fn new() -> (r: Self)
        ensures
            r.wf(),
            r.keys() == no_keys(),
            r.nothing_typed(),
            r.enc_pub_key@.len() == 0,
            r.enc_priv_key@.len() == 0,
            r.default_asset@ == "BTCUSDT"@,
            r.default_intv == Intv::Min1,
            r.enc_api_keys,
            r.save_api_keys,
            r.defalt_next_wicks == 30,
            r.backload_wicks == 740,
            r.key_status == KeysStatus::Invalid,
            r.balances@ == Map::<Seq<char>, (F, F)>::empty(),
    {
        Settings {
            enc_pub_key: Vec::new(),
            enc_priv_key: Vec::new(),
            api_key_enter_string: String::new(),
            priv_api_key_enter_string: String::new(),
            default_asset: "BTCUSDT".to_owned(),
            default_intv: Intv::Min1,
            enc_api_keys: true,
            save_api_keys: true,
            defalt_next_wicks: 30,
            binance_pub_key: None,
            binance_priv_key: None,
            enc_binance_pub_key: None,
            enc_binance_priv_key: None,
            password_string: String::new(),
            backload_wicks: 740,
            key_status: KeysStatus::Invalid,
            balances: KeyMap::new(),
        }
    }

    /// The same settings once more.
    pub fn duplicate(&self) -> (r: Self)
        requires
            self.wf(),
        ensures
            r.wf(),
            r.copies(self),
    {
        Settings {
            enc_pub_key: copy_bytes(&self.enc_pub_key),
            enc_priv_key: copy_bytes(&self.enc_priv_key),
            api_key_enter_string: self.api_key_enter_string.clone(),
            priv_api_key_enter_string: self.priv_api_key_enter_string.clone(),
            default_asset: self.default_asset.clone(),
            default_intv: self.default_intv,
            enc_api_keys: self.enc_api_keys,
            save_api_keys: self.save_api_keys,
            defalt_next_wicks: self.defalt_next_wicks,
            binance_pub_key: copy_text(&self.binance_pub_key),
            binance_priv_key: copy_text(&self.binance_priv_key),
            enc_binance_pub_key: copy_text(&self.enc_binance_pub_key),
            enc_binance_priv_key: copy_text(&self.enc_binance_priv_key),
            password_string: self.password_string.clone(),
            backload_wicks: self.backload_wicks,
            key_status: self.key_status,
            balances: self.balances.duplicate(),
        }
    }

    /// Whether a password is long enough.
    pub fn verify_password_req(password: &str) -> (r: bool)
        ensures
            r == long_enough(password@),
    {
        password.unicode_len() >= PASSWORD_MIN
    }

    /// Encrypts the keys under `pass`, and forgets them in the clear. What was
    /// encrypted comes back by [`Settings::decrypt_keys`] with the same password.
    pub fn encrypt_keys(&mut self, pass: &str) -> (r: Result<(), KeysError>)
        ensures
            (final(self).keys(), r) == after_encrypt(old(self).keys(), pass@),
            ({
                let before = old(self).keys();
                long_enough(pass@) && before.public is Some && before.private is Some
                    ==> after_decrypt(final(self).keys(), pass@) == (
                    Keys { enc_public: None, enc_private: None, ..before },
                    Ok::<(), KeysError>(()),
                )
            }),
            final(self).same_rest(old(self)),
            final(self).same_typed(old(self)),
    {
        if !Self::verify_password_req(pass) {
            return Ok(());
        }
        let pub_key = match self.binance_pub_key.take() {
            Some(k) => k,
            None => return Err(KeysError::NoPublicKey),
        };
        let priv_key = match self.binance_priv_key.take() {
            Some(k) => k,
            None => return Err(KeysError::NoPrivateKey),
        };
        let enc_pub = crypt::encrypt(pass, pub_key.as_str());
        let enc_priv = crypt::encrypt(pass, priv_key.as_str());
        self.enc_binance_pub_key = Some(enc_pub);
        self.enc_binance_priv_key = Some(enc_priv);
        Ok(())
    }

    /// Decrypts the keys under `pass`.
    pub fn decrypt_keys(&mut self, pass: &str) -> (r: Result<(), KeysError>)
        ensures
            (final(self).keys(), r) == after_decrypt(old(self).keys(), pass@),
            final(self).same_rest(old(self)),
            final(self).same_typed(old(self)),
    {
        let pub_key = match self.enc_binance_pub_key.take() {
            Some(k) => k,
            None => return Err(KeysError::NoPublicKey),
        };
        let priv_key = match self.enc_binance_priv_key.take() {
            Some(k) => k,
            None => return Err(KeysError::NoPrivateKey),
        };
        let pub_key = match crypt::decrypt(pass, pub_key.as_str()) {
            Ok(k) => k,
            Err(_) => return Err(KeysError::PublicKey),
        };
        let priv_key = match crypt::decrypt(pass, priv_key.as_str()) {
            Ok(k) => k,
            Err(_) => return Err(KeysError::PrivateKey),
        };
        self.binance_pub_key = Some(pub_key);
        self.binance_priv_key = Some(priv_key);
        Ok(())
    }

    /// Makes the settings ready to be written to the file: empties what was
    /// typed, and encrypts or drops the keys.
    pub fn save_settings_file(&mut self, password: Option<&str>)
        ensures
            final(self).keys() == after_save(
                old(self).keys(),
                match password {
                    Some(p) => Some(p@),
                    None => None,
                },
                old(self).save_api_keys,
            ),
            final(self).nothing_typed(),
            final(self).same_rest(old(self)),
    {
        self.password_string = String::new();
        self.api_key_enter_string = String::new();
        self.priv_api_key_enter_string = String::new();
        match password {
            Some(pass) => {
                let _ = self.encrypt_keys(pass);
            },
            None => {
                if !self.save_api_keys {
                    self.binance_pub_key = None;
                    self.binance_priv_key = None;
                    self.enc_binance_pub_key = None;
                    self.enc_binance_priv_key = None;
                }
            },
        }
    }

    /// The settings that were read from the file, with their keys decrypted
    /// where there is a password.
    pub fn load_settings_file(loaded: Self, password: Option<&str>) -> (r: Result<Self, KeysError>)
        ensures
            match password {
                None => r == Ok::<Self, KeysError>(loaded),
                Some(p) => match r {
                    Ok(s) => {
                        &&& after_decrypt(loaded.keys(), p@) == (s.keys(), Ok::<(), KeysError>(()))
                        &&& s.same_rest(&loaded)
                        &&& s.same_typed(&loaded)
                    },
                    Err(e) => after_decrypt(loaded.keys(), p@).1 == Err::<(), KeysError>(e),
                },
            },
    {
        let mut settings = loaded;
        match password {
            Some(pass) => match settings.decrypt_keys(pass) {
                Ok(_) => Ok(settings),
                Err(e) => Err(e),
            },
            None => Ok(settings),
        }
    }

    /// These are the settings `before` with what the exchange told.
    pub open spec fn synced<S: Number>(&self, before: Self, live_info: LiveInfo<F, S>) -> bool {
        &&& self.wf()
        &&& self.balances@ == live_info.acc_balances@
        &&& *self == (Settings {
            balances: self.balances,
            key_status: live_info.keys_status,
            ..before
        })
    }

    /// Takes over what the exchange told: the balances, and whether it takes the
    /// keys.
    pub fn sync<S: Number>(&mut self, live_info: &LiveInfo<F, S>)
        requires
            live_info.wf(),
        ensures
            final(self).synced(*old(self), *live_info),
    {
        self.balances = live_info.acc_balances.duplicate();
        self.key_status = live_info.keys_status;
    }

    /// These are the settings `before` once they were saved, and `sent` was sent.
    pub open spec fn saved<S: Number>(&self, before: Self, sent: ClientInstruct<F, S>) -> bool {
        &&& sent matches ClientInstruct::SendBinInstructs(
            BinInstructs::AddReplaceApiKeys { pub_key, priv_key },
        ) && pub_key@ == before.api_key_enter_string@ && priv_key@
            == before.priv_api_key_enter_string@
        &&& self.keys() == (if before.enc_api_keys {
            let pass = before.password_string@;
            after_encrypt(after_encrypt(before.keys(), pass).0, pass).0
        } else {
            after_save(
                Keys {
                    public: Some(before.api_key_enter_string@),
                    private: Some(before.priv_api_key_enter_string@),
                    ..before.keys()
                },
                None,
                before.save_api_keys,
            )
        })
        &&& self.nothing_typed()
        &&& self.same_rest(&before)
    }

    /// Saving was asked for. The keys that were typed go to the exchange. Then
    /// the settings are made ready for the file: under a password, keys that are
    /// still in the clear are encrypted with it; without one, the typed keys are
    /// kept in the clear.
    pub fn on_save<S: Number>(&mut self) -> (r: ClientInstruct<F, S>)
        ensures
            final(self).saved(*old(self), r),
    {
        let msg = ClientInstruct::SendBinInstructs(
            BinInstructs::AddReplaceApiKeys {
                pub_key: self.api_key_enter_string.clone(),
                priv_key: self.priv_api_key_enter_string.clone(),
            },
        );
        if self.enc_api_keys {
            let pass = self.password_string.clone();
            let _ = self.encrypt_keys(pass.as_str());
            self.save_settings_file(Some(pass.as_str()));
        } else {
            self.binance_pub_key = Some(self.api_key_enter_string.clone());
            self.binance_priv_key = Some(self.priv_api_key_enter_string.clone());
            self.save_settings_file(None);
        }
        msg
    }

    /// The password with which the file is to be read: the typed one, where
    /// nothing is typed.
    pub fn load_password(&self) -> (r: Option<String>)
        ensures
            text_of(r) == (if self.password_string@.len() == 0 {
                Some(self.password_string@)
            } else {
                None
            }),
    {
        if self.password_string.as_str().is_empty() {
            Some(self.password_string.clone())
        } else {
            None
        }
    }

    /// These are the settings `before` once the file was read, and `sent` was sent.
    pub open spec fn took_in<S: Number>(
        &self,
        before: Self,
        loaded: Option<Self>,
        sent: Option<ClientInstruct<F, S>>,
    ) -> bool {
        &&& match loaded {
            Some(s) => *self == s,
            None => *self == before,
        }
        &&& match sent {
            Some(msg) => {
                &&& self.binance_pub_key is Some
                &&& self.binance_priv_key is Some
                &&& msg matches ClientInstruct::SendBinInstructs(
                    BinInstructs::AddReplaceApiKeys { pub_key, priv_key },
                ) && pub_key@ == self.binance_pub_key->0@ && priv_key@
                    == self.binance_priv_key->0@
            },
            None => self.binance_pub_key is None || self.binance_priv_key is None,
        }
    }

    /// The file was read, where there is one. Its settings take the place of
    /// these; keys in the clear go to the exchange.
    pub fn on_loaded<S: Number>(&mut self, loaded: Option<Self>) -> (r: Option<ClientInstruct<F, S>>)
        ensures
            final(self).took_in(*old(self), loaded, r),
    {
        if let Some(s) = loaded {
            *self = s;
        }
        self.key_message()
    }

    /// The message that hands the keys in the clear to the exchange; none where
    /// one of them is missing.
    fn key_message<S: Number>(&self) -> (r: Option<ClientInstruct<F, S>>)
        ensures
            match r {
                Some(msg) => {
                    &&& self.binance_pub_key is Some
                    &&& self.binance_priv_key is Some
                    &&& msg matches ClientInstruct::SendBinInstructs(
                        BinInstructs::AddReplaceApiKeys { pub_key, priv_key },
                    ) && pub_key@ == self.binance_pub_key->0@ && priv_key@
                        == self.binance_priv_key->0@
                },
                None => self.binance_pub_key is None || self.binance_priv_key is None,
            },
    {
        match (&self.binance_pub_key, &self.binance_priv_key) {
            (Some(p), Some(q)) => Some(
                ClientInstruct::SendBinInstructs(
                    BinInstructs::AddReplaceApiKeys { pub_key: p.clone(), priv_key: q.clone() },
                ),
            ),
            _ => None,
        }
    }

    /// These are the settings `before` once the keys were removed.
    pub open spec fn removed(&self, before: Self) -> bool {
        &&& self.keys() == no_keys()
        &&& self.nothing_typed()
        &&& self.same_rest(&before)
    }

    /// The keys were to be removed: they are forgotten here, in the file, for
    /// which the settings are ready then, and at the exchange.
    pub fn on_remove<S: Number>(&mut self) -> (r: ClientInstruct<F, S>)
        ensures
            r == ClientInstruct::<F, S>::SendBinInstructs(BinInstructs::RemoveApiKeys),
            final(self).removed(*old(self)),
    {
        self.binance_pub_key = None;
        self.binance_priv_key = None;
        self.enc_binance_pub_key = None;
        self.enc_binance_priv_key = None;
        self.save_settings_file(None);
        ClientInstruct::SendBinInstructs(BinInstructs::RemoveApiKeys)
    }

    /// These are the settings `before` once the keys were to be unlocked, and `sent`
    /// was sent.
    pub open spec fn unlocked<S: Number>(
        &self,
        before: Self,
        sent: Result<ClientInstruct<F, S>, KeysError>,
    ) -> bool {
        let (k, result) = after_decrypt(before.keys(), before.password_string@);
        &&& match result {
            Ok(_) => {
                &&& sent matches Ok(
                    ClientInstruct::SendBinInstructs(
                        BinInstructs::AddReplaceApiKeys { pub_key, priv_key },
                    ),
                ) && pub_key@ == k.public->0 && priv_key@ == k.private->0
                &&& self.keys() == no_keys()
            },
            Err(e) => {
                &&& sent == Err::<ClientInstruct<F, S>, KeysError>(e)
                &&& self.keys() == k
            },
        }
        &&& self.same_rest(&before)
        &&& self.same_typed(&before)
    }

    /// The keys were to be unlocked with the typed password. Where they decrypt,
    /// they go to the exchange and are forgotten again.
    pub fn on_unlock<S: Number>(&mut self) -> (r: Result<ClientInstruct<F, S>, KeysError>)
        ensures
            final(self).unlocked(*old(self), r),
    {
        let pass = self.password_string.clone();
        match self.decrypt_keys(pass.as_str()) {
            Err(e) => Err(e),
            Ok(_) => {
                let pub_key = self.binance_pub_key.take();
                let priv_key = self.binance_priv_key.take();
                match (pub_key, priv_key) {
                    (Some(pub_key), Some(priv_key)) => Ok(
                        ClientInstruct::SendBinInstructs(
                            BinInstructs::AddReplaceApiKeys { pub_key, priv_key },
                        ),
                    ),
                    _ => Err(KeysError::NoPublicKey),
                }
            },
        }
    }

    /// The message that asks for the balances anew.
    pub fn on_refresh<S: Number>() -> (r: ClientInstruct<F, S>)
        ensures
            r == ClientInstruct::<F, S>::SendBinInstructs(BinInstructs::GetAllBalances),
    {
        ClientInstruct::SendBinInstructs(BinInstructs::GetAllBalances)
    }

    /// These are the settings `before` once the button was pressed, and `r` came of
    /// it.
    pub open spec fn handled<S: Number>(
        &self,
        before: Self,
        button: Option<Button<F>>,
        r: Handled<F, S>,
    ) -> bool {
        match button {
            None => *self == before && !r.write && r.sent == Ok::<
                Option<ClientInstruct<F, S>>,
                KeysError,
            >(None),
            Some(Button::Save) => {
                &&& r.write
                &&& r.sent matches Ok(Some(msg)) && self.saved(before, msg)
            },
            Some(Button::Load(loaded)) => {
                &&& !r.write
                &&& r.sent matches Ok(msg) && self.took_in(before, loaded, msg)
            },
            Some(Button::Remove) => r.write && self.removed(before) && r.sent == Ok::<
                Option<ClientInstruct<F, S>>,
                KeysError,
            >(Some(ClientInstruct::SendBinInstructs(BinInstructs::RemoveApiKeys))),
            Some(Button::Unlock) => !r.write && match r.sent {
                Ok(Some(msg)) => self.unlocked(before, Ok(msg)),
                Ok(None) => false,
                Err(e) => self.unlocked(before, Err::<ClientInstruct<F, S>, KeysError>(e)),
            },
            Some(Button::Refresh) => *self == before && !r.write && r.sent == Ok::<
                Option<ClientInstruct<F, S>>,
                KeysError,
            >(Some(ClientInstruct::SendBinInstructs(BinInstructs::GetAllBalances))),
        }
    }

    /// One round of the window: takes over what the exchange told, then does what the
    /// button asks for, where one was pressed.
    pub fn show<S: Number>(
        &mut self,
        live_info: &LiveInfo<F, S>,
        button: Option<Button<F>>,
    ) -> (r: Handled<F, S>)
        requires
            live_info.wf(),
        ensures
            exists|mid: Self| #[trigger]
                mid.synced(*old(self), *live_info) && final(self).handled(mid, button, r),
    {
        self.sync(live_info);
        let ghost mid = *self;
        let r = match button {
            None => Handled { sent: Ok(None), write: false },
            Some(Button::Save) => {
                let msg = self.on_save();
                Handled { sent: Ok(Some(msg)), write: true }
            },
            Some(Button::Load(loaded)) => {
                let msg = self.on_loaded(loaded);
                Handled { sent: Ok(msg), write: false }
            },
            Some(Button::Remove) => {
                let msg = self.on_remove();
                Handled { sent: Ok(Some(msg)), write: true }
            },
            Some(Button::Unlock) => match self.on_unlock() {
                Ok(msg) => Handled { sent: Ok(Some(msg)), write: false },
                Err(e) => Handled { sent: Err(e), write: false },
            },
            Some(Button::Refresh) => {
                let msg = Self::on_refresh();
                Handled { sent: Ok(Some(msg)), write: false }
            },
        };
        assert(mid.synced(*old(self), *live_info) && self.handled(mid, button, r));
        r
    }

    /// The line that says whether the exchange takes the keys.
    pub fn key_status_text(status: KeysStatus) -> (r: &'static str)
        ensures
            r@ == (match status {
                KeysStatus::Invalid => "Api Keys Invalid, Not Added, or Not Unlocked"@,
                KeysStatus::Valid => "Api Keys Valid"@,
            }),
    {
        match status {
            KeysStatus::Invalid => "Api Keys Invalid, Not Added, or Not Unlocked",
            KeysStatus::Valid => "Api Keys Valid",
        }
    }

    /// The balances to show: those that are not empty.
    pub fn shown_balances(&self) -> (r: Vec<(&str, F, F)>)
        requires
            num::lawful::<F>(),
            self.wf(),
        ensures
            r@.map_values(|e: (&str, F, F)| (e.0@, e.1, e.2)) == shown(
                self.balances.listed(),
                self.balances.listed().len() as int,
            ),
    {
        let zero: F = num::whole(0);
        let mut out: Vec<(&str, F, F)> = Vec::new();
        let ghost model = |e: (&str, F, F)| (e.0@, e.1, e.2);
        let mut i: usize = 0;
        while i < self.balances.len()
            invariant
                num::lawful::<F>(),
                zero == num::lit::<F>(0),
                i <= self.balances.listed().len(),
                model == (|e: (&str, F, F)| (e.0@, e.1, e.2)),
                out@.map_values(model) == shown(self.balances.listed(), i as int),
            decreases self.balances.listed().len() - i,
        {
            let (asset, (free, locked)) = self.balances.entry(i);
            if *free == zero && *locked == zero {
            } else {
                let ghost before = out@;
                out.push((asset.as_str(), *free, *locked));
                assert(out@.map_values(model) =~= before.map_values(model).push(
                    (asset@, *free, *locked),
                ));
            }
            i += 1;
        }
        out
    }
}

/// The same bytes once more.
fn copy_bytes(b: &Vec<u8>) -> (r: Vec<u8>)
    ensures
        r@ == b@,
{
    let mut r: Vec<u8> = Vec::new();
    let mut i: usize = 0;
    while i < b.len()
        invariant
            i <= b@.len(),
            r@ == b@.take(i as int),
        decreases b@.len() - i,
    {
        r.push(b[i]);
        assert(r@ =~= b@.take(i + 1));
        i += 1;
    }
    assert(b@.take(b@.len() as int) =~= b@);
    r
}

/// The same text once more.
fn copy_text(s: &Option<String>) -> (r: Option<String>)
    ensures
        text_of(r) == text_of(*s),
{
    match s {
        Some(t) => Some(t.clone()),
        None => None,
    }
}

/// A password needs sixteen characters.
pub proof fn passwords_have_sixteen_characters(password: Seq<char>)
    ensures
        long_enough(password) <==> password.len() >= 16,
{
}

/// Under a password that is too short nothing is encrypted. Under one that is long enough both
/// keys are needed; where both are there, neither stays in the clear, and each is encrypted in
/// its own place. Nothing is encrypted where one is missing.
pub proof fn encrypted_keys_leave_the_clear(k: Keys, pass: Seq<char>)
    ensures
        ({
            let (after, r) = after_encrypt(k, pass);
            &&& pass.len() < 16 ==> after == k && r is Ok
            &&& pass.len() >= 16 ==> (r is Ok <==> k.public is Some && k.private is Some)
            &&& pass.len() >= 16 && k.public is None ==> r == Err::<(), KeysError>(
                KeysError::NoPublicKey,
            ) && after == k
            &&& pass.len() >= 16 && k.public is Some && k.private is None ==> r == Err::<
                (),
                KeysError,
            >(KeysError::NoPrivateKey) && after.public is None && after.private is None
                && after.enc_public == k.enc_public && after.enc_private == k.enc_private
            &&& pass.len() >= 16 && k.public is Some && k.private is Some ==> after.public is None
                && after.private is None && after.enc_public == Some(
                crypt::encrypted(pass, k.public->0),
            ) && after.enc_private == Some(crypt::encrypted(pass, k.private->0))
        }),
{
}

/// Decrypting needs both encrypted keys and uses up those that are there. Where both decrypt,
/// each comes back in its own place; where one does not, no key in the clear changes, and the
/// first one that does not is told.
pub proof fn decrypted_keys_come_back_in_their_places(k: Keys, pass: Seq<char>)
    ensures
        ({
            let (after, r) = after_decrypt(k, pass);
            let both = k.enc_public is Some && k.enc_private is Some;
            let p = crypt::decrypted(pass, k.enc_public->0);
            let q = crypt::decrypted(pass, k.enc_private->0);
            &&& r is Ok <==> both && p is Some && q is Some
            &&& r is Ok ==> after.public == p && after.private == q
            &&& r is Err ==> after.public == k.public && after.private == k.private
            &&& after.enc_public is None
            &&& both ==> after.enc_private is None
            &&& !both ==> after.enc_private == k.enc_private
            &&& k.enc_public is None ==> r == Err::<(), KeysError>(KeysError::NoPublicKey)
            &&& k.enc_public is Some && k.enc_private is None ==> r == Err::<(), KeysError>(
                KeysError::NoPrivateKey,
            )
            &&& both && p is None ==> r == Err::<(), KeysError>(KeysError::PublicKey)
            &&& both && p is Some && q is None ==> r == Err::<(), KeysError>(KeysError::PrivateKey)
        }),
{
}

/// Decrypting undoes encrypting under the same password, as far as the cipher does.
pub proof fn decrypting_undoes_encrypting(k: Keys, pass: Seq<char>)
    requires
        long_enough(pass),
        k.public is Some,
        k.private is Some,
        crypt::decrypted(pass, crypt::encrypted(pass, k.public->0)) == k.public,
        crypt::decrypted(pass, crypt::encrypted(pass, k.private->0)) == k.private,
    ensures
        ({
            let (back, r) = after_decrypt(after_encrypt(k, pass).0, pass);
            &&& r is Ok
            &&& back.public == k.public
            &&& back.private == k.private
            &&& back.enc_public is None
            &&& back.enc_private is None
        }),
{
}

/// Under a password of sixteen characters no pair of keys goes into the file in the clear.
/// Without a password keys go in as they are where they are to be kept, and else not at all.
pub proof fn the_file_holds_what_it_may(k: Keys, pass: Seq<char>, keep: bool)
    ensures
        long_enough(pass) && k.public is Some ==> after_save(k, Some(pass), keep).public is None
            && after_save(k, Some(pass), keep).private is None,
        after_save(k, Some(pass), keep) == after_encrypt(k, pass).0,
        after_save(k, None, true) == k,
        after_save(k, None, false).public is None && after_save(k, None, false).private is None
            && after_save(k, None, false).enc_public is None && after_save(
            k,
            None,
            false,
        ).enc_private is None,
        no_keys().public is None && no_keys().private is None && no_keys().enc_public is None
            && no_keys().enc_private is None,
{
}

/// The keys of the settings are read off their own fields.
pub proof fn keys_are_read_off_their_fields<F: Number>(s: Settings<F>, t: String)
    ensures
        text_of(Some(t)) == Some(t@),
        text_of(None::<String>) is None,
        s.keys().public is Some <==> s.binance_pub_key is Some,
        s.keys().private is Some <==> s.binance_priv_key is Some,
        s.keys().enc_public is Some <==> s.enc_binance_pub_key is Some,
        s.keys().enc_private is Some <==> s.enc_binance_priv_key is Some,
        s.binance_pub_key matches Some(k) ==> s.keys().public == Some(k@),
        s.binance_priv_key matches Some(k) ==> s.keys().private == Some(k@),
        s.enc_binance_pub_key matches Some(k) ==> s.keys().enc_public == Some(k@),
        s.enc_binance_priv_key matches Some(k) ==> s.keys().enc_private == Some(k@),
{
}

/// Two settings that agree on the rest differ in the keys and in what is typed at most; where
/// nothing is typed, all three fields are empty.
pub proof fn the_rest_is_all_but_keys_and_typing<F: Number>(a: Settings<F>, b: Settings<F>)
    ensures
        a.same_rest(&b) ==> a.enc_pub_key == b.enc_pub_key && a.enc_priv_key == b.enc_priv_key
            && a.default_asset == b.default_asset && a.default_intv == b.default_intv
            && a.enc_api_keys == b.enc_api_keys && a.save_api_keys == b.save_api_keys
            && a.defalt_next_wicks == b.defalt_next_wicks && a.backload_wicks == b.backload_wicks
            && a.key_status == b.key_status && a.balances == b.balances,
        a.same_typed(&b) ==> a.password_string == b.password_string && a.api_key_enter_string
            == b.api_key_enter_string && a.priv_api_key_enter_string == b.priv_api_key_enter_string,
        a.nothing_typed() ==> a.password_string@.len() == 0 && a.api_key_enter_string@.len() == 0
            && a.priv_api_key_enter_string@.len() == 0,
        a.copies(&b) ==> a.keys() == b.keys() && a.same_typed(&b) && a.default_asset
            == b.default_asset && a.default_intv == b.default_intv && a.enc_api_keys
            == b.enc_api_keys && a.save_api_keys == b.save_api_keys && a.defalt_next_wicks
            == b.defalt_next_wicks && a.backload_wicks == b.backload_wicks && a.key_status
            == b.key_status && a.balances@ == b.balances@ && a.enc_pub_key@ == b.enc_pub_key@
            && a.enc_priv_key@ == b.enc_priv_key@,
{
}

/// Saving sends the typed keys to the exchange and empties the fields. Without a password the
/// typed keys are those kept, or none are; under a password of sixteen characters a public key
/// does not stay in the clear.
pub proof fn saving_sends_the_typed_keys<F: Number, S: Number>(
    after: Settings<F>,
    before: Settings<F>,
    sent: ClientInstruct<F, S>,
)
    requires
        after.saved(before, sent),
    ensures
        sent matches ClientInstruct::SendBinInstructs(
            BinInstructs::AddReplaceApiKeys { pub_key, priv_key },
        ) && pub_key@ == before.api_key_enter_string@ && priv_key@
            == before.priv_api_key_enter_string@,
        after.password_string@.len() == 0 && after.api_key_enter_string@.len() == 0
            && after.priv_api_key_enter_string@.len() == 0,
        !before.enc_api_keys && before.save_api_keys ==> after.keys().public == Some(
            before.api_key_enter_string@,
        ) && after.keys().private == Some(before.priv_api_key_enter_string@)
            && after.keys().enc_public == before.keys().enc_public && after.keys().enc_private
            == before.keys().enc_private,
        !before.enc_api_keys && !before.save_api_keys ==> after.keys().public is None
            && after.keys().private is None && after.keys().enc_public is None
            && after.keys().enc_private is None,
        before.enc_api_keys && before.password_string@.len() < 16 ==> after.keys() == before.keys(),
        before.enc_api_keys && before.password_string@.len() >= 16 && before.keys().public is Some
            ==> after.keys().public is None && after.keys().private is None,
        before.enc_api_keys && before.password_string@.len() >= 16 && before.keys().public is Some
            && before.keys().private is Some ==> after.keys().enc_public == Some(
            crypt::encrypted(before.password_string@, before.keys().public->0),
        ) && after.keys().enc_private == Some(
            crypt::encrypted(before.password_string@, before.keys().private->0),
        ),
        after.default_asset == before.default_asset && after.balances == before.balances,
{
}

/// What the file held takes the place of the settings, and without a file they stay. Keys go to
/// the exchange exactly where both are there in the clear then.
pub proof fn loading_sends_keys_in_the_clear<F: Number, S: Number>(
    after: Settings<F>,
    before: Settings<F>,
    loaded: Option<Settings<F>>,
    sent: Option<ClientInstruct<F, S>>,
)
    requires
        after.took_in(before, loaded, sent),
    ensures
        loaded matches Some(s) ==> after == s,
        loaded is None ==> after == before,
        sent is Some <==> after.binance_pub_key is Some && after.binance_priv_key is Some,
        sent matches Some(m) ==> (m matches ClientInstruct::SendBinInstructs(
            BinInstructs::AddReplaceApiKeys { pub_key, priv_key },
        ) && Some(pub_key@) == after.keys().public && Some(priv_key@) == after.keys().private),
{
}

/// Removing leaves no key, encrypted or not, and nothing typed.
pub proof fn removing_leaves_no_key<F: Number>(after: Settings<F>, before: Settings<F>)
    requires
        after.removed(before),
    ensures
        after.binance_pub_key is None && after.binance_priv_key is None
            && after.enc_binance_pub_key is None && after.enc_binance_priv_key is None,
        after.password_string@.len() == 0,
        after.default_asset == before.default_asset && after.balances == before.balances
            && after.key_status == before.key_status,
{
}

/// Unlocking sends the decrypted keys to the exchange and keeps none of them; where they do not
/// decrypt, nothing is sent and the error is told.
pub proof fn unlocking_sends_the_decrypted_keys<F: Number, S: Number>(
    after: Settings<F>,
    before: Settings<F>,
    sent: Result<ClientInstruct<F, S>, KeysError>,
)
    requires
        after.unlocked(before, sent),
    ensures
        ({
            let r = after_decrypt(before.keys(), before.password_string@).1;
            &&& sent is Ok <==> r is Ok
            &&& r matches Err(e) ==> sent == Err::<ClientInstruct<F, S>, KeysError>(e)
                && after.keys().public == before.keys().public && after.keys().private
                == before.keys().private
            &&& r is Ok ==> after.binance_pub_key is None && after.binance_priv_key is None
                && after.enc_binance_pub_key is None && after.enc_binance_priv_key is None
            &&& r is Ok ==> (sent matches Ok(
                ClientInstruct::SendBinInstructs(
                    BinInstructs::AddReplaceApiKeys { pub_key, priv_key },
                ),
            ) && Some(pub_key@) == crypt::decrypted(
                before.password_string@,
                before.keys().enc_public->0,
            ) && Some(priv_key@) == crypt::decrypted(
                before.password_string@,
                before.keys().enc_private->0,
            ))
        }),
        after.password_string == before.password_string && after.balances == before.balances,
{
}

/// What the exchange told is taken over, its balances and whether it takes the keys, and nothing
/// else of the settings changes by it.
pub proof fn what_the_exchange_told_is_taken_over<F: Number, S: Number>(
    after: Settings<F>,
    before: Settings<F>,
    live: LiveInfo<F, S>,
)
    requires
        after.synced(before, live),
    ensures
        after.balances@ == live.acc_balances@,
        after.key_status == live.keys_status,
        after.keys() == before.keys(),
        after.same_typed(&before),
        after.default_asset == before.default_asset && after.enc_api_keys == before.enc_api_keys
            && after.save_api_keys == before.save_api_keys,
{
}

/// Each button does its own: saving and removing write the file, and no other one does. Without a
/// button nothing is sent, written or changed; refreshing asks for the balances alone.
pub proof fn each_button_does_its_own<F: Number, S: Number>(
    after: Settings<F>,
    before: Settings<F>,
    button: Option<Button<F>>,
    r: Handled<F, S>,
)
    requires
        after.handled(before, button, r),
    ensures
        r.write <==> button == Some(Button::<F>::Save) || button == Some(Button::<F>::Remove),
        button is None ==> after == before && r.sent == Ok::<
            Option<ClientInstruct<F, S>>,
            KeysError,
        >(None),
        button == Some(Button::<F>::Save) ==> (r.sent matches Ok(Some(m)) && after.saved(before, m)),
        button == Some(Button::<F>::Remove) ==> after.removed(before) && (r.sent matches Ok(
            Some(ClientInstruct::SendBinInstructs(BinInstructs::RemoveApiKeys)),
        )),
        button matches Some(Button::Load(loaded)) ==> (r.sent matches Ok(m) && after.took_in(
            before,
            loaded,
            m,
        )),
        button == Some(Button::<F>::Unlock) ==> (r.sent is Ok <==> after_decrypt(
            before.keys(),
            before.password_string@,
        ).1 is Ok) && (r.sent matches Ok(Some(m)) ==> after.unlocked(before, Ok(m))) && (
        r.sent matches Err(e) ==> after.unlocked(
            before,
            Err::<ClientInstruct<F, S>, KeysError>(e),
        )),
        button == Some(Button::<F>::Refresh) ==> after == before && (r.sent matches Ok(
            Some(ClientInstruct::SendBinInstructs(BinInstructs::GetAllBalances)),
        )),
{
}

/// Of the balances those are shown of which there is something, free or locked, each with its
/// name and both amounts.
pub proof fn balances_that_hold_something_are_shown(entries: Seq<(String, (u64, u64))>, n: int)
    requires
        0 <= n <= entries.len(),
    ensures
        forall|i: int|
            0 <= i < n ==> ((#[trigger] entries[i]).1.0 > 0 || entries[i].1.1 > 0 ==> shown(
                entries,
                n,
            ).contains((entries[i].0@, entries[i].1.0, entries[i].1.1))),
        forall|j: int|
            0 <= j < shown(entries, n).len() ==> (#[trigger] shown(entries, n)[j]).1 > 0 || shown(
                entries,
                n,
            )[j].2 > 0,
        forall|j: int|
            0 <= j < shown(entries, n).len() ==> exists|i: int|
                0 <= i < n && ((#[trigger] entries[i]).0@, entries[i].1.0, entries[i].1.1)
                    == #[trigger] shown(entries, n)[j],
    decreases n,
{
    if n > 0 {
        balances_that_hold_something_are_shown(entries, n - 1);
        let before = shown(entries, n - 1);
        let after = shown(entries, n);
        let e = entries[n - 1];
        num::unsigned_constants(0, 1, 0);
        num::unsigned_compare(e.1.0, 0);
        num::unsigned_compare(e.1.1, 0);
        assert forall|i: int| 0 <= i < n implies ((#[trigger] entries[i]).1.0 > 0 || entries[i].1.1
            > 0 ==> after.contains((entries[i].0@, entries[i].1.0, entries[i].1.1))) by {
            let x = (entries[i].0@, entries[i].1.0, entries[i].1.1);
            if entries[i].1.0 > 0 || entries[i].1.1 > 0 {
                if i < n - 1 {
                    let j = choose|j: int| 0 <= j < before.len() && before[j] == x;
                    assert(after[j] == x);
                } else {
                    assert(after[before.len() as int] == x);
                }
            }
        }
        assert forall|j: int| 0 <= j < after.len() implies exists|i: int|
            0 <= i < n && ((#[trigger] entries[i]).0@, entries[i].1.0, entries[i].1.1)
                == #[trigger] after[j] by {
            if j < before.len() {
                assert(after[j] == before[j]);
                let i = choose|i: int|
                    0 <= i < n - 1 && ((#[trigger] entries[i]).0@, entries[i].1.0, entries[i].1.1)
                        == before[j];
                assert((entries[i].0@, entries[i].1.0, entries[i].1.1) == after[j]);
            } else {
                assert((entries[n - 1].0@, entries[n - 1].1.0, entries[n - 1].1.1) == after[j]);
            }
        }
        assert forall|j: int| 0 <= j < after.len() implies (#[trigger] after[j]).1 > 0 || after[j].2
            > 0 by {
            if j < before.len() {
                assert(after[j] == before[j]);
            }
        }
    }
}

} // verus!
