//! Typed keys for a plugin's persisted state.
//!
//! A plugin names each piece of state it keeps as a variant of a closed enum.
//! The store files a value under the plugin's scope and the key's wire name,
//! the variant's own name, which reads back to the same variant.
use vstd::prelude::*;
use vstd::string::StrSliceExecFns;

verus! {

/// Whether `s` holds exactly the characters of `lit`.
fn str_equals(s: &str, lit: &str) -> (r: bool)
    ensures
        r == (s@ == lit@),
{
    let n = s.unicode_len();
    if n != lit.unicode_len() {
        return false;
    }
    let mut i: usize = 0;
    while i < n
        invariant
            n == s@.len(),
            n == lit@.len(),
            i <= n,
            s@.subrange(0, i as int) == lit@.subrange(0, i as int),
        decreases n - i,
    {
        if s.get_char(i) != lit.get_char(i) {
            return false;
        }
        assert(s@.subrange(0, i + 1) =~= s@.subrange(0, i as int).push(s@[i as int]));
        assert(lit@.subrange(0, i + 1) =~= lit@.subrange(0, i as int).push(lit@[i as int]));
        i = i + 1;
    }
    assert(s@ =~= s@.subrange(0, n as int));
    assert(lit@ =~= lit@.subrange(0, n as int));
    true
}

/// A key type that a scoped store accepts: a closed set of variants, each
/// with a stable wire name from which it can be read back.
pub trait ScopedStoreKey: Sized {
    /// The name under which the key is persisted.
    spec fn wire_name_spec(&self) -> Seq<char>;

    /// The key that a persisted name stands for, if any.
    spec fn parse_spec(name: Seq<char>) -> Option<Self>;

    fn wire_name(&self) -> (r: String)
        ensures
            r@ == self.wire_name_spec(),
    ;

    fn from_wire_name(name: &str) -> (r: Option<Self>)
        ensures
            r == Self::parse_spec(name@),
    ;

    /// A key's wire name reads back to the same key.
    proof fn lemma_wire_round_trip(k: Self)
        ensures
            Self::parse_spec(k.wire_name_spec()) == Some(k),
    ;
}

/// The notification plugin's persisted settings.
#[derive(PartialEq, Eq, Structural, Hash, Debug, Clone, Copy)]
pub enum StoreKey {
    EventNotification,
    DetectNotification,
}

pub open spec fn event_notification_name() -> Seq<char> {
    seq!['E', 'v', 'e', 'n', 't', 'N', 'o', 't', 'i', 'f', 'i', 'c', 'a', 't', 'i', 'o', 'n']
}

pub open spec fn detect_notification_name() -> Seq<char> {
    seq!['D', 'e', 't', 'e', 'c', 't', 'N', 'o', 't', 'i', 'f', 'i', 'c', 'a', 't', 'i', 'o', 'n']
}

impl ScopedStoreKey for StoreKey {
    open spec fn wire_name_spec(&self) -> Seq<char> {
        match self {
            StoreKey::EventNotification => event_notification_name(),
            StoreKey::DetectNotification => detect_notification_name(),
        }
    }

    open spec fn parse_spec(name: Seq<char>) -> Option<StoreKey> {
        if name == event_notification_name() {
            Some(StoreKey::EventNotification)
        } else if name == detect_notification_name() {
            Some(StoreKey::DetectNotification)
        } else {
            None
        }
    }

    fn wire_name(&self) -> (r: String) {
        match self {
            StoreKey::EventNotification => {
                let r = "EventNotification".to_owned();
                proof {
                    reveal_strlit("EventNotification");
                    assert(r@ =~= event_notification_name());
                }
                r
            },
            StoreKey::DetectNotification => {
                let r = "DetectNotification".to_owned();
                proof {
                    reveal_strlit("DetectNotification");
                    assert(r@ =~= detect_notification_name());
                }
                r
            },
        }
    }

    fn from_wire_name(name: &str) -> (r: Option<StoreKey>) {
        proof {
            reveal_strlit("EventNotification");
            reveal_strlit("DetectNotification");
            assert("EventNotification"@ =~= event_notification_name());
            assert("DetectNotification"@ =~= detect_notification_name());
        }
        if str_equals(name, "EventNotification") {
            Some(StoreKey::EventNotification)
        } else if str_equals(name, "DetectNotification") {
            Some(StoreKey::DetectNotification)
        } else {
            None
        }
    }

    proof fn lemma_wire_round_trip(k: StoreKey) {
        assert(event_notification_name() != detect_notification_name()) by {
            assert(event_notification_name()[0] != detect_notification_name()[0]);
        }
    }
}

/// Where a store files a value: the owning scope and the key's wire name.
pub struct StoreSlot {
    pub scope: String,
    pub key: String,
}

impl View for StoreSlot {
    type V = (Seq<char>, Seq<char>);

    open spec fn view(&self) -> (Seq<char>, Seq<char>) {
        (self.scope@, self.key@)
    }
}

/// The identity of `key` under `scope`.
pub open spec fn slot_spec<K: ScopedStoreKey>(scope: Seq<char>, key: K) -> (Seq<char>, Seq<char>) {
    (scope, key.wire_name_spec())
}

/// The slot that `key` names under `scope`.
pub fn store_slot<K: ScopedStoreKey>(scope: &str, key: &K) -> (r: StoreSlot)
    ensures
        r@ == slot_spec(scope@, *key),
{
    StoreSlot { scope: scope.to_owned(), key: key.wire_name() }
}

/// Reading back a key's wire name gives the key itself.
pub proof fn lemma_wire_name_round_trip<K: ScopedStoreKey>(k: K)
    ensures
        K::parse_spec(k.wire_name_spec()) == Some(k),
{
    K::lemma_wire_round_trip(k);
}

/// Two keys of one type are equal exactly when their wire names are.
pub proof fn lemma_wire_names_identify<K: ScopedStoreKey>(a: K, b: K)
    ensures
        a == a,
        a.wire_name_spec() == a.wire_name_spec(),
        (a == b) <==> (a.wire_name_spec() == b.wire_name_spec()),
{
    K::lemma_wire_round_trip(a);
    K::lemma_wire_round_trip(b);
}

/// The two notification keys are different keys with different names.
pub proof fn lemma_store_keys_distinct()
    ensures
        StoreKey::EventNotification != StoreKey::DetectNotification,
        StoreKey::EventNotification.wire_name_spec() != StoreKey::DetectNotification.wire_name_spec(),
{
    lemma_wire_names_identify(StoreKey::EventNotification, StoreKey::DetectNotification);
}

/// Keys filed under different scopes never share a slot, whatever their
/// types and even where their wire names coincide.
pub proof fn lemma_scopes_keep_slots_apart<A: ScopedStoreKey, B: ScopedStoreKey>(
    scope_a: Seq<char>,
    a: A,
    scope_b: Seq<char>,
    b: B,
)
    requires
        scope_a != scope_b,
    ensures
        slot_spec(scope_a, a) != slot_spec(scope_b, b),
{
}

/// Within one key type, a slot is shared exactly by the same key under the
/// same scope.
pub proof fn lemma_slot_identity<K: ScopedStoreKey>(scope_a: Seq<char>, a: K, scope_b: Seq<char>, b: K)
    ensures
        (slot_spec(scope_a, a) == slot_spec(scope_b, b)) <==> (scope_a == scope_b && a == b),
{
    lemma_wire_names_identify(a, b);
}

} // verus!
