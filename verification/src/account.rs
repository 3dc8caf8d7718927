//! What the recovery rules read of an account: its identity, its active
//! authentication keys and its spending limit.

use vstd::prelude::*;
use crate::instant::Duration;

verus! {

/// An authentication factor of an account: the key held by the mobile
/// application or the key held by the hardware device.
#[derive(Clone, Copy, Debug, PartialEq, Eq, Structural)]
pub enum Factor {
    App,
    Hw,
}

impl Factor {
    /// The factor of an account that is not `self`.
    pub fn other(self) -> (r: Factor)
        ensures
            r != self,
            self == Factor::App ==> r == Factor::Hw,
            self == Factor::Hw ==> r == Factor::App,
    {
        match self {
            Factor::App => Factor::Hw,
            Factor::Hw => Factor::App,
        }
    }
}

/// A kind of authentication key: the two factors and the recovery key.
#[derive(Clone, Copy, Debug, PartialEq, Eq, Structural)]
pub enum AuthFactor {
    App,
    Hw,
    Recovery,
}

/// The identity of an account: the 128-bit value of its identifier.
#[derive(Clone, Copy, Debug, PartialEq, Eq, Structural)]
pub struct AccountId {
    pub value: u128,
}

/// The identity of a set of authentication keys.
#[derive(Clone, Copy, Debug, PartialEq, Eq, Structural)]
pub struct AuthKeysId {
    pub value: u128,
}

/// The identity of a spending keyset.
#[derive(Clone, Copy, Debug, PartialEq, Eq, Structural)]
pub struct KeysetId {
    pub value: u128,
}

/// The length of a compressed public key in bytes.
pub const PUBKEY_LEN: usize = 33;

/// An authentication public key in its compressed form of 33 bytes, which is
/// the same for two keys exactly if they are the same key.
#[derive(Clone, Copy, Debug, PartialEq, Eq)]
pub struct AuthPubkey {
    pub bytes: [u8; 33],
}

/// The lower-case hexadecimal digit of a value below 16.
pub open spec fn hex_digit(nibble: int) -> char {
    if nibble < 10 {
        ('0' as int + nibble) as char
    } else {
        ('a' as int + nibble - 10) as char
    }
}

/// The lower-case hexadecimal text of `bytes`: two digits for each byte, the
/// high half first.
pub open spec fn hex_text(bytes: Seq<u8>) -> Seq<char> {
    Seq::new(2 * bytes.len(), |i: int| hex_digit(if i % 2 == 0 {
        bytes[i / 2] as int / 16
    } else {
        bytes[i / 2] as int % 16
    }))
}

fn hex_digit_of(nibble: u8) -> (c: char)
    requires
        nibble < 16,
    ensures
        c == hex_digit(nibble as int),
{
    if nibble < 10 {
        (48u8 + nibble) as char
    } else {
        (97u8 + (nibble - 10)) as char
    }
}

impl AuthPubkey {
    /// Whether the two are the same key.
    pub fn same(&self, other: &AuthPubkey) -> (r: bool)
        ensures
            r == (*self == *other),
    {
        let mut i: usize = 0;
        while i < 33
            invariant
                i <= 33,
                forall|j: int| 0 <= j < i ==> self.bytes[j] == other.bytes[j],
            decreases 33 - i,
        {
            if self.bytes[i] != other.bytes[i] {
                return false;
            }
            i = i + 1;
        }
        assert(self.bytes =~= other.bytes);
        true
    }

    /// The key as text: 66 lower-case hexadecimal digits.
    pub fn to_hex(&self) -> (text: String)
        ensures
            text@ == hex_text(self.bytes@),
    {
        let mut text = String::new();
        let mut i: usize = 0;
        while i < 33
            invariant
                i <= 33,
                text@ == hex_text(self.bytes@).take(2 * i),
            decreases 33 - i,
        {
            let byte: u8 = self.bytes[i];
            text.push(hex_digit_of(byte / 16));
            text.push(hex_digit_of(byte % 16));
            i = i + 1;
            assert(text@ =~= hex_text(self.bytes@).take(2 * i));
        }
        assert(text@ =~= hex_text(self.bytes@));
        text
    }
}

/// Whether two optional keys are the same: both absent, or both present and
/// the same key.
pub fn same_optional_key(a: &Option<AuthPubkey>, b: &Option<AuthPubkey>) -> (r: bool)
    ensures
        r == (*a == *b),
{
    match (a, b) {
        (None, None) => true,
        (Some(x), Some(y)) => x.same(y),
        _ => false,
    }
}

/// The authentication keys that are active on an account.
#[derive(Clone, Copy, Debug, PartialEq, Eq)]
pub struct FullAccountAuthKeys {
    pub app_pubkey: AuthPubkey,
    pub hardware_pubkey: AuthPubkey,
    pub recovery_pubkey: Option<AuthPubkey>,
}

/// The spending limit of an account. Only `active` matters to recovery; the
/// other fields are carried along unchanged.
#[derive(Clone, Copy, Debug, PartialEq, Eq, Structural)]
pub struct SpendingLimit {
    pub active: bool,
    pub amount: u64,
    pub currency_code: u16,
    pub time_zone_offset_seconds: i32,
}

impl SpendingLimit {
    /// The same limit, switched off.
    pub fn deactivated(self) -> (r: SpendingLimit)
        ensures
            r == (SpendingLimit { active: false, ..self }),
    {
        SpendingLimit { active: false, ..self }
    }
}

/// The limit that an account has once spending under it is switched off: no
/// limit stays no limit, and a limit keeps all but `active`.
pub open spec fn spec_disabled_limit(limit: Option<SpendingLimit>) -> Option<SpendingLimit> {
    match limit {
        Some(l) => Some(SpendingLimit { active: false, ..l }),
        None => None,
    }
}

/// Computes `spec_disabled_limit`.
pub fn disabled_limit(limit: Option<SpendingLimit>) -> (r: Option<SpendingLimit>)
    ensures
        r == spec_disabled_limit(limit),
{
    match limit {
        Some(l) => Some(l.deactivated()),
        None => None,
    }
}

/// A full account, as far as recovery reads it.
#[derive(Clone, Copy, Debug, PartialEq, Eq)]
pub struct FullAccount {
    pub id: AccountId,
    /// The identity of the key set that is active.
    pub active_auth_keys_id: AuthKeysId,
    /// The active key set itself, if the account holds one under that identity.
    pub active_auth_keys: Option<FullAccountAuthKeys>,
    pub active_keyset_id: KeysetId,
    pub spending_limit: Option<SpendingLimit>,
    pub is_test_account: bool,
    /// How long a recovery of this account must wait before it can complete.
    pub recovery_delay_period: Duration,
}

} // verus!
