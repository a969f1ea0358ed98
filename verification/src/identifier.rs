//! The validated, interned trader identifier.

use vstd::prelude::*;

use core::cmp::Ordering;

use crate::errors::{InvalidReason, InvalidValue};
use crate::interning;
use crate::order;
use crate::validate;
use vstd::std_specs::cmp::{PartialEqSpec, PartialOrdSpec};

verus! {

/// The structural invariant of a trader identifier's text: non-empty, not
/// all whitespace, and containing at least one `-` separator.
pub open spec fn valid_trader_id_text(s: Seq<char>) -> bool {
    validate::is_valid_text(s) && validate::text_contains(s, seq!['-'])
}

/// A validated, interned identifier uniquely naming a trader.
///
/// Wraps a small copyable handle into the process-wide interning store.
/// Every identifier [`TraderId::new`] or [`TraderId::default`] hands out
/// satisfies [`TraderId::wf`]: its text is non-empty, not all whitespace,
/// and contains a `-` separator. Equality, ordering and hashing all
/// derive from that text.
#[derive(Clone, Copy, Hash, Ord)]
pub struct TraderId {
    /// Handle to the interned identifier text.
    pub value: ustr::Ustr,
}

impl View for TraderId {
    type V = Seq<char>;

    open spec fn view(&self) -> Seq<char> {
        interning::interned_text(self.value)
    }
}

impl TraderId {
    /// Whether this identifier upholds its structural invariant.
    pub open spec fn wf(&self) -> bool {
        valid_trader_id_text(self@)
    }

    /// Creates an identifier from `s` after validating it: `s` must be
    /// non-empty, not all whitespace, and contain at least one `-`.
    ///
    /// On success the identifier's text is exactly `s`. On failure nothing
    /// is interned and the error reports the first rule broken: emptiness
    /// and whitespace are checked before the separator.
    pub fn new(s: &str) -> (r: Result<Self, InvalidValue>)
        ensures
            r is Ok <==> valid_trader_id_text(s@),
            r is Ok ==> (r->Ok_0)@ == s@ && (r->Ok_0).wf(),
            r is Ok ==> forall|other: TraderId|
                #[trigger] other@ == s@ ==> other.value == (r->Ok_0).value,
            r is Err ==> (r->Err_0).field_name@ == "`TraderId` value"@,
            r is Err ==> (r->Err_0).reason == (if s@.len() == 0 {
                InvalidReason::Empty
            } else if validate::all_whitespace(s@) {
                InvalidReason::WhitespaceOnly
            } else {
                InvalidReason::MissingSubstring
            }),
    {
        proof {
            reveal_strlit("-");
            assert("-"@ =~= seq!['-']);
        }
        match validate::valid_string(s, "`TraderId` value") {
            Ok(()) => {}
            Err(e) => {
                return Err(e);
            }
        }
        match validate::string_contains(s, "-", "`TraderId` value") {
            Ok(()) => {}
            Err(e) => {
                return Err(e);
            }
        }
        let u = interning::intern(s);
        proof {
            assert forall|other: TraderId| #[trigger] other@ == s@ implies other.value == u by {
                assert(interning::interned_text(other.value) == s@);
            }
        }
        Ok(TraderId { value: u })
    }

    /// The exact text that was validated and interned: the plain rendering.
    pub fn to_string(&self) -> (r: String)
        ensures
            r@ == self@,
    {
        interning::resolve(&self.value).to_owned()
    }

    /// The diagnostic rendering: the plain text wrapped in double quotes.
    pub fn debug_string(&self) -> (r: String)
        ensures
            r@ == seq!['"'] + self@ + seq!['"'],
    {
        proof {
            reveal_strlit("\"");
            assert("\""@ =~= seq!['"']);
        }
        let mut m = String::from_str("\"");
        m.append(interning::resolve(&self.value));
        m.append("\"");
        m
    }
}

impl Default for TraderId {
    /// The well-known default identifier, with text `TRADER-000`.
    fn default() -> (r: Self)
        ensures
            r@ == "TRADER-000"@,
            r.wf(),
    {
        let r = TraderId { value: interning::intern("TRADER-000") };
        proof {
            reveal_strlit("TRADER-000");
            assert(!validate::all_whitespace("TRADER-000"@)) by {
                assert(!validate::is_whitespace_char('T'));
                assert("TRADER-000"@[0] == 'T');
            }
            assert(validate::contains_at("TRADER-000"@, seq!['-'], 6)) by {
                assert(seq!['-'][0] == '-');
                assert("TRADER-000"@[6] == '-');
            }
        }
        r
    }
}

impl PartialEq for TraderId {
    /// Two identifiers are equal exactly when their texts are equal.
    fn eq(&self, other: &Self) -> (r: bool) {
        interning::handle_eq(&self.value, &other.value)
    }
}

impl vstd::std_specs::cmp::PartialEqSpecImpl for TraderId {
    open spec fn obeys_eq_spec() -> bool {
        true
    }

    open spec fn eq_spec(&self, other: &Self) -> bool {
        self@ == other@
    }
}

impl Eq for TraderId {}

impl PartialOrd for TraderId {
    /// Identifiers order by lexicographic comparison of their texts.
    fn partial_cmp(&self, other: &Self) -> (r: Option<Ordering>) {
        Some(interning::handle_cmp(&self.value, &other.value))
    }
}

impl vstd::std_specs::cmp::PartialOrdSpecImpl for TraderId {
    open spec fn obeys_partial_cmp_spec() -> bool {
        true
    }

    open spec fn partial_cmp_spec(&self, other: &Self) -> Option<Ordering> {
        Some(order::lex_cmp(self@, other@))
    }
}

/// Relies on `Ustr::precomputed_hash`: returns the hash the interning store
/// computed once and cached in this handle's entry when its text was first
/// interned. The value is a fixed part of the entry, so it is a function of
/// the handle; identifiers built from equal text share one handle and so
/// hash alike. Across process runs the value may differ.
#[verifier::external_body]
pub fn trader_id_hash(id: &TraderId) -> (r: u64)
    ensures
        r == interning::interned_hash(id.value),
{
    id.value.precomputed_hash()
}

/// Identity is consistent: two identifiers are equal under `eq_spec`
/// exactly when their texts are equal, exactly when they compare as
/// `Equal`. In particular, identifiers constructed from equal text are
/// equal.
pub proof fn lemma_identity_consistent(a: TraderId, b: TraderId)
    ensures
        a.eq_spec(&b) <==> a@ == b@,
        a.eq_spec(&b) <==> a.partial_cmp_spec(&b) == Some(Ordering::Equal),
{
    order::lemma_lex_cmp_equal_iff(a@, b@);
}

/// The ordering is strict and antisymmetric, and every pair of
/// identifiers is comparable.
pub proof fn lemma_ordering_antisymmetric(a: TraderId, b: TraderId)
    ensures
        a.partial_cmp_spec(&b) == Some(Ordering::Less) <==> b.partial_cmp_spec(&a) == Some(
            Ordering::Greater,
        ),
        a.partial_cmp_spec(&b) is Some,
{
    order::lemma_lex_cmp_antisymmetric(a@, b@);
}

/// The ordering is transitive: strictly-less chains stay strictly less.
pub proof fn lemma_ordering_transitive(a: TraderId, b: TraderId, c: TraderId)
    requires
        a.partial_cmp_spec(&b) == Some(Ordering::Less),
        b.partial_cmp_spec(&c) == Some(Ordering::Less),
    ensures
        a.partial_cmp_spec(&c) == Some(Ordering::Less),
{
    order::lemma_lex_cmp_transitive(a@, b@, c@);
}

} // verus!
