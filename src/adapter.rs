//! The adapter's desired configuration, and the policy on its alias.

use vstd::prelude::*;

verus! {

/// The longest alias accepted, in characters: the longest device name that
/// Bluetooth Low Energy carries.
pub const MAX_ALIAS_LEN: usize = 248;

/// The alias that the beacon broadcasts.
pub const DEVICE_ALIAS: &'static str = "Signal-Node-01";

/// A character the adapter control interface takes in an alias: printable ASCII.
pub open spec fn alias_char(c: char) -> bool {
    ' ' <= c && c <= '~'
}

/// An alias the adapter control interface takes as it is: one to
/// `MAX_ALIAS_LEN` printable ASCII characters. Longer or other aliases are
/// rejected, never truncated.
pub open spec fn valid_alias(s: Seq<char>) -> bool {
    &&& 0 < s.len() <= MAX_ALIAS_LEN
    &&& forall|i: int| 0 <= i < s.len() ==> alias_char(#[trigger] s[i])
}

/// Why an alias was rejected.
#[derive(Clone, Copy, Debug, PartialEq, Eq, Structural)]
pub enum AliasError {
    /// The alias is empty.
    Empty,
    /// The alias has more than `MAX_ALIAS_LEN` characters.
    TooLong,
    /// The character at this index is not printable ASCII.
    UnsupportedChar(usize),
}

/// The index of the first character of `s` that an alias cannot hold, if any.
pub open spec fn first_bad_char(s: Seq<char>, i: int) -> bool {
    &&& 0 <= i < s.len()
    &&& !alias_char(s[i])
    &&& forall|j: int| 0 <= j < i ==> alias_char(#[trigger] s[j])
}

/// The adapter state that the bring-up establishes.
pub struct AdapterConfig {
    powered: bool,
    discoverable: bool,
    alias: String,
}

impl AdapterConfig {
    /// Whether the adapter is to be powered on.
    pub closed spec fn powered_spec(&self) -> bool {
        self.powered
    }

    /// Whether the adapter is to be discoverable.
    pub closed spec fn discoverable_spec(&self) -> bool {
        self.discoverable
    }

    /// The alias the adapter is to broadcast.
    pub closed spec fn alias_spec(&self) -> Seq<char> {
        self.alias@
    }

    /// Well-formedness: the alias is one the adapter takes as it is.
    pub open spec fn wf(&self) -> bool {
        valid_alias(self.alias_spec())
    }

    /// A configuration with the given settings, or the reason why `alias`
    /// cannot be used: checked in this order, empty, too long, then the first
    /// character that is not printable ASCII.
    pub fn new(powered: bool, discoverable: bool, alias: String) -> (r: Result<
        AdapterConfig,
        AliasError,
    >)
        ensures
            r is Ok <==> valid_alias(alias@),
            r matches Ok(c) ==> {
                &&& c.wf()
                &&& c.powered_spec() == powered
                &&& c.discoverable_spec() == discoverable
                &&& c.alias_spec() == alias@
            },
            r == Err::<AdapterConfig, AliasError>(AliasError::Empty) <==> alias@.len() == 0,
            r == Err::<AdapterConfig, AliasError>(AliasError::TooLong) <==> alias@.len()
                > MAX_ALIAS_LEN,
            r matches Err(AliasError::UnsupportedChar(i)) ==> 0 < alias@.len() <= MAX_ALIAS_LEN
                && first_bad_char(alias@, i as int),
    {
        let len = alias.as_str().unicode_len();
        if len == 0 {
            return Err(AliasError::Empty);
        }
        if len > MAX_ALIAS_LEN {
            return Err(AliasError::TooLong);
        }
        let mut i: usize = 0;
        while i < len
            invariant
                len == alias@.len(),
                0 < len <= MAX_ALIAS_LEN,
                0 <= i <= len,
                forall|j: int| 0 <= j < i ==> alias_char(#[trigger] alias@[j]),
            decreases len - i,
        {
            let c = alias.as_str().get_char(i);
            if !(' ' <= c && c <= '~') {
                return Err(AliasError::UnsupportedChar(i));
            }
            i = i + 1;
        }
        Ok(AdapterConfig { powered, discoverable, alias })
    }

    /// The beacon's configuration: powered, discoverable, named `DEVICE_ALIAS`.
    pub fn beacon() -> (r: AdapterConfig)
        ensures
            r.wf(),
            r.powered_spec(),
            r.discoverable_spec(),
            r.alias_spec() == DEVICE_ALIAS@,
    {
        proof {
            reveal_strlit("Signal-Node-01");
        }
        let alias = DEVICE_ALIAS.to_string();
        assert(valid_alias(alias@));
        AdapterConfig { powered: true, discoverable: true, alias }
    }

    /// Whether the adapter is to be powered on.
    pub fn powered(&self) -> (r: bool)
        ensures
            r == self.powered_spec(),
    {
        self.powered
    }

    /// Whether the adapter is to be discoverable.
    pub fn discoverable(&self) -> (r: bool)
        ensures
            r == self.discoverable_spec(),
    {
        self.discoverable
    }

    /// The alias the adapter is to broadcast.
    pub fn alias(&self) -> (r: &str)
        ensures
            r@ == self.alias_spec(),
    {
        self.alias.as_str()
    }
}

} // verus!
