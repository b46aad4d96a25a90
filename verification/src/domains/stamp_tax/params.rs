use vstd::prelude::*;

use crate::domains::stamp_tax::context::{StampTaxDocumentCode, StampTaxFlag};
use crate::text::{lex_le, str_le};

verus! {

/// The statute a document's tax rests on.
#[derive(Debug, Clone)]
pub struct StampTaxCitation {
    /// The name of the law.
    pub law_name: String,
    /// The article or line of the schedule.
    pub article: String,
}

/// How the tax of a document is charged.
#[derive(Debug, Clone, Copy, PartialEq, Eq, Structural)]
pub enum StampTaxChargeMode {
    /// By brackets of the stated amount.
    AmountBrackets,
    /// A fixed amount per document.
    FixedPerDocument,
    /// A fixed amount per year.
    FixedPerYear,
}

/// Whether a document takes a stated amount.
#[derive(Debug, Clone, Copy, PartialEq, Eq, Structural)]
pub enum StampTaxAmountUsage {
    /// The stated amount must be given.
    Required,
    /// The stated amount may be given.
    Optional,
    /// The stated amount may not be given.
    Unsupported,
}

/// One bracket of a stamp tax table: a fixed tax for a range of amounts.
///
/// The stamp tax is a fixed amount, not a rate, so the bracket holds the
/// tax itself.
///
/// Legal basis: Stamp Tax Act, Schedule 1.
#[derive(Debug, Clone)]
pub struct StampTaxBracket {
    /// The display label (for example "10万円超50万円以下").
    pub label: String,
    /// The lower end of the amounts, in yen, inclusive.
    pub amount_from: u64,
    /// The upper end of the amounts, in yen, inclusive; `None` for no end.
    pub amount_to_inclusive: Option<u64>,
    /// The tax, in yen.
    pub tax_amount: u64,
}

impl StampTaxBracket {
    /// The bracket covers the amount.
    pub open spec fn covers(self, amount: u64) -> bool {
        &&& self.amount_from <= amount
        &&& self.amount_to_inclusive matches Some(to) ==> amount <= to
    }

    /// Whether the bracket covers the amount.
    pub fn matches(&self, amount: u64) -> (r: bool)
        ensures
            r == self.covers(amount),
    {
        self.amount_from <= amount && match self.amount_to_inclusive {
            Some(to) => amount <= to,
            None => true,
        }
    }
}

/// Some amount of the list of brackets covers `amount`.
pub open spec fn some_bracket_covers(brackets: Seq<StampTaxBracket>, amount: u64) -> bool {
    exists|i: int| 0 <= i < brackets.len() && #[trigger] brackets[i].covers(amount)
}

/// A special rule of a document: an exemption or a reduced tax.
#[derive(Debug, Clone)]
pub struct StampTaxSpecialRule {
    /// The code of the rule.
    pub code: String,
    /// The display label.
    pub label: String,
    /// The priority; the lowest number wins among the rules that apply.
    pub priority: u32,
    /// The first day the rule applies (`YYYY-MM-DD`), if any.
    pub effective_from: Option<String>,
    /// The last day the rule applies (`YYYY-MM-DD`), if any.
    pub effective_until: Option<String>,
    /// The flags that must all be given for the rule to apply.
    pub required_flags: Vec<StampTaxFlag>,
    /// A fixed tax, in yen, if the rule sets one.
    pub tax_amount: Option<u64>,
    /// The label of the fixed tax.
    pub rule_label: Option<String>,
    /// The brackets of the rule's own tax table; with a fixed tax they
    /// bound the amounts the rule applies to.
    pub brackets: Vec<StampTaxBracket>,
    /// The tax, in yen, when no amount is stated.
    pub no_amount_tax_amount: Option<u64>,
    /// The label of the tax when no amount is stated.
    pub no_amount_rule_label: Option<String>,
}

impl StampTaxSpecialRule {
    /// The rule is in effect on the date written `date` (`YYYY-MM-DD`):
    /// the text comparison of such dates is their order in time.
    pub open spec fn in_effect_on(self, date: Seq<char>) -> bool {
        &&& self.effective_from matches Some(from) ==> lex_le(from@, date)
        &&& self.effective_until matches Some(until) ==> lex_le(date, until@)
    }

    /// The rule applies to the stated amount: a rule without brackets
    /// applies to any amount; one with brackets applies to an amount that
    /// one of them covers, and to no amount only where it sets a tax for
    /// that case.
    pub open spec fn applies_to_amount(self, stated_amount: Option<u64>) -> bool {
        if self.brackets@.len() == 0 {
            true
        } else {
            match stated_amount {
                Some(amount) => some_bracket_covers(self.brackets@, amount),
                None => self.no_amount_tax_amount is Some,
            }
        }
    }

    /// All the flags the rule requires are among `flags`.
    pub open spec fn flags_given(self, flags: Set<StampTaxFlag>) -> bool {
        forall|i: int|
            0 <= i < self.required_flags@.len() ==> flags.contains(
                #[trigger] self.required_flags@[i],
            )
    }

    /// Whether the rule is in effect on the date written `date_str`.
    pub fn matches_date(&self, date_str: &str) -> (r: bool)
        ensures
            r == self.in_effect_on(date_str@),
            self.effective_from matches Some(from) && !lex_le(from@, date_str@) ==> !r,
            self.effective_until matches Some(until) && !lex_le(date_str@, until@) ==> !r,
    {
        let after_start = match &self.effective_from {
            Some(from) => str_le(from.as_str(), date_str),
            None => true,
        };
        let before_end = match &self.effective_until {
            Some(until) => str_le(date_str, until.as_str()),
            None => true,
        };
        after_start && before_end
    }

    /// Whether the rule applies to the stated amount.
    pub fn matches_amount(&self, stated_amount: Option<u64>) -> (r: bool)
        ensures
            r == self.applies_to_amount(stated_amount),
    {
        if self.brackets.len() == 0 {
            return true;
        }
        match stated_amount {
            Some(amount) => {
                let mut i: usize = 0;
                while i < self.brackets.len()
                    invariant
                        0 <= i <= self.brackets@.len(),
                        self.brackets@.len() > 0,
                        stated_amount == Some(amount),
                        forall|k: int| 0 <= k < i ==> !(#[trigger] self.brackets@[k]).covers(amount),
                    decreases self.brackets@.len() - i,
                {
                    if self.brackets[i].matches(amount) {
                        proof {
                            assert(self.brackets@[i as int].covers(amount));
                        }
                        return true;
                    }
                    i = i + 1;
                }
                false
            },
            None => self.no_amount_tax_amount.is_some(),
        }
    }
}

/// The parameters of one document code.
///
/// Legal basis: Stamp Tax Act, Schedule 1; Act on Special Measures
/// Concerning Taxation, Article 91.
#[derive(Debug, Clone)]
pub struct StampTaxDocumentParams {
    /// The document code.
    pub code: StampTaxDocumentCode,
    /// The display label of the document.
    pub label: String,
    /// The statute.
    pub citation: StampTaxCitation,
    /// How the tax is charged.
    pub charge_mode: StampTaxChargeMode,
    /// Whether a stated amount is taken.
    pub amount_usage: StampTaxAmountUsage,
    /// The label of the fixed tax.
    pub base_rule_label: String,
    /// The fixed tax, in yen, of a document charged per document or year.
    pub base_tax_amount: Option<u64>,
    /// The brackets of the tax table, lowest amounts first.
    pub brackets: Vec<StampTaxBracket>,
    /// The tax, in yen, when no amount is stated.
    pub no_amount_tax_amount: Option<u64>,
    /// The label of the tax when no amount is stated.
    pub no_amount_rule_label: Option<String>,
    /// The special rules.
    pub special_rules: Vec<StampTaxSpecialRule>,
}

/// The parameters of each document code, at most one entry per code.
#[derive(Debug)]
pub struct StampTaxDocumentMap {
    entries: Vec<(StampTaxDocumentCode, StampTaxDocumentParams)>,
}

/// The map that a list of entries gives, later entries winning.
pub open spec fn entries_map(entries: Seq<(StampTaxDocumentCode, StampTaxDocumentParams)>) -> Map<
    StampTaxDocumentCode,
    StampTaxDocumentParams,
>
    decreases entries.len(),
{
    if entries.len() == 0 {
        Map::empty()
    } else {
        entries_map(entries.drop_last()).insert(entries.last().0, entries.last().1)
    }
}

impl View for StampTaxDocumentMap {
    type V = Map<StampTaxDocumentCode, StampTaxDocumentParams>;

    closed spec fn view(&self) -> Map<StampTaxDocumentCode, StampTaxDocumentParams> {
        entries_map(self.entries@)
    }
}

/// The value of a key is that of its last entry; without one the key is
/// not in the map.
proof fn lemma_entries_map_last(
    entries: Seq<(StampTaxDocumentCode, StampTaxDocumentParams)>,
    key: StampTaxDocumentCode,
    j: int,
)
    requires
        -1 <= j < entries.len(),
        forall|k: int| j < k < entries.len() ==> (#[trigger] entries[k]).0 != key,
        j >= 0 ==> entries[j].0 == key,
    ensures
        j >= 0 ==> entries_map(entries).contains_key(key) && entries_map(entries)[key]
            == entries[j].1,
        j < 0 ==> !entries_map(entries).contains_key(key),
    decreases entries.len(),
{
    if entries.len() > 0 && j < entries.len() - 1 {
        let rest = entries.drop_last();
        assert forall|k: int| j < k < rest.len() implies (#[trigger] rest[k]).0 != key by {
            assert(rest[k] == entries[k]);
        }
        assert(entries[entries.len() - 1].0 != key);
        lemma_entries_map_last(rest, key, j);
        if j >= 0 {
            assert(rest[j] == entries[j]);
        }
    }
}

/// No two entries have the same code.
pub open spec fn keys_unique(entries: Seq<(StampTaxDocumentCode, StampTaxDocumentParams)>) -> bool {
    forall|i: int, j: int|
        0 <= i < entries.len() && 0 <= j < entries.len() && i != j ==> (#[trigger] entries[i]).0
            != (#[trigger] entries[j]).0
}

/// Replacing the value of an entry replaces that key's value in the map.
proof fn lemma_entries_map_update(
    entries: Seq<(StampTaxDocumentCode, StampTaxDocumentParams)>,
    i: int,
    key: StampTaxDocumentCode,
    value: StampTaxDocumentParams,
)
    requires
        keys_unique(entries),
        0 <= i < entries.len(),
        entries[i].0 == key,
    ensures
        entries_map(entries.update(i, (key, value))) == entries_map(entries).insert(key, value),
    decreases entries.len(),
{
    let updated = entries.update(i, (key, value));
    let last = entries.len() - 1;
    if i == last {
        assert(updated.drop_last() =~= entries.drop_last());
        assert(entries_map(updated) =~= entries_map(entries).insert(key, value));
    } else {
        let rest = entries.drop_last();
        assert(updated.drop_last() =~= rest.update(i, (key, value)));
        assert(keys_unique(rest)) by {
            assert forall|a: int, b: int|
                0 <= a < rest.len() && 0 <= b < rest.len() && a != b implies (#[trigger] rest[a]).0
                != (#[trigger] rest[b]).0 by {
                assert(rest[a] == entries[a] && rest[b] == entries[b]);
            }
        }
        assert(rest[i] == entries[i]);
        lemma_entries_map_update(rest, i, key, value);
        assert(entries[last].0 != key);
        assert(updated.last() == entries.last());
        assert(entries_map(updated) =~= entries_map(entries).insert(key, value));
    }
}

impl StampTaxDocumentMap {
    #[verifier::type_invariant]
    spec fn holds_each_code_once(self) -> bool {
        keys_unique(self.entries@)
    }

    /// The empty map.
    pub fn new() -> (r: Self)
        ensures
            r@ == Map::<StampTaxDocumentCode, StampTaxDocumentParams>::empty(),
    {
        StampTaxDocumentMap { entries: Vec::new() }
    }

    /// Sets the parameters of `code`, replacing those it had.
    pub fn insert(&mut self, code: StampTaxDocumentCode, document: StampTaxDocumentParams)
        ensures
            final(self)@ == old(self)@.insert(code, document),
    {
        proof {
            use_type_invariant(&*self);
        }
        let mut entries = Vec::new();
        std::mem::swap(&mut entries, &mut self.entries);
        let ghost before = entries@;
        let mut i: usize = 0;
        while i < entries.len()
            invariant
                entries@ == before,
                0 <= i <= before.len(),
                forall|k: int| 0 <= k < i ==> (#[trigger] before[k]).0 != code,
            ensures
                entries@ == before,
                0 <= i <= before.len(),
                forall|k: int| 0 <= k < i ==> (#[trigger] before[k]).0 != code,
                i < before.len() ==> before[i as int].0 == code,
            decreases before.len() - i,
        {
            if entries[i].0 == code {
                break;
            }
            i = i + 1;
        }
        if i < entries.len() {
            entries[i] = (code, document);
            proof {
                lemma_entries_map_update(before, i as int, code, document);
                assert(entries@ == before.update(i as int, (code, document)));
                assert(keys_unique(entries@)) by {
                    assert forall|a: int, b: int|
                        0 <= a < entries@.len() && 0 <= b < entries@.len() && a != b implies (
                        #[trigger] entries@[a]).0 != (#[trigger] entries@[b]).0 by {
                        if a != i && b != i {
                            assert(entries@[a] == before[a] && entries@[b] == before[b]);
                        } else if a == i {
                            assert(entries@[b] == before[b]);
                        } else {
                            assert(entries@[a] == before[a]);
                        }
                    }
                }
            }
        } else {
            entries.push((code, document));
            proof {
                assert(entries@.drop_last() =~= before);
                assert(keys_unique(entries@)) by {
                    assert forall|a: int, b: int|
                        0 <= a < entries@.len() && 0 <= b < entries@.len() && a != b implies (
                        #[trigger] entries@[a]).0 != (#[trigger] entries@[b]).0 by {
                        if a < before.len() && b < before.len() {
                            assert(entries@[a] == before[a] && entries@[b] == before[b]);
                        } else if a < before.len() {
                            assert(entries@[a] == before[a]);
                        } else {
                            assert(entries@[b] == before[b]);
                        }
                    }
                }
            }
        }
        self.entries = entries;
    }

    /// The parameters of `code`, if it has any.
    pub fn get(&self, code: StampTaxDocumentCode) -> (r: Option<&StampTaxDocumentParams>)
        ensures
            match r {
                Some(d) => self@.contains_key(code) && *d == self@[code],
                None => !self@.contains_key(code),
            },
    {
        let mut i: usize = self.entries.len();
        while i > 0
            invariant
                0 <= i <= self.entries@.len(),
                forall|k: int| i <= k < self.entries@.len() ==> (#[trigger] self.entries@[k]).0
                    != code,
            decreases i,
        {
            i = i - 1;
            if self.entries[i].0 == code {
                proof {
                    lemma_entries_map_last(self.entries@, code, i as int);
                }
                return Some(&self.entries[i].1);
            }
        }
        proof {
            lemma_entries_map_last(self.entries@, code, -1);
        }
        None
    }
}

impl Clone for StampTaxDocumentMap {
    /// A copy holding the same codes, each with a clone of its parameters.
    fn clone(&self) -> (r: Self)
        ensures
            r@.dom() == self@.dom(),
    {
        proof {
            use_type_invariant(self);
        }
        let mut entries: Vec<(StampTaxDocumentCode, StampTaxDocumentParams)> = Vec::new();
        let mut i: usize = 0;
        while i < self.entries.len()
            invariant
                0 <= i <= self.entries@.len(),
                keys_unique(self.entries@),
                entries@.len() == i,
                forall|k: int| 0 <= k < i ==> (#[trigger] entries@[k]).0 == self.entries@[k].0,
            decreases self.entries@.len() - i,
        {
            entries.push((self.entries[i].0, self.entries[i].1.clone()));
            i = i + 1;
        }
        proof {
            assert(keys_unique(entries@)) by {
                assert forall|a: int, b: int|
                    0 <= a < entries@.len() && 0 <= b < entries@.len() && a != b implies (
                    #[trigger] entries@[a]).0 != (#[trigger] entries@[b]).0 by {
                    assert(self.entries@[a].0 != self.entries@[b].0);
                }
            }
            lemma_entries_map_same_keys(entries@, self.entries@);
        }
        StampTaxDocumentMap { entries }
    }
}

/// Two lists of entries with the same codes in the same places give maps
/// with the same codes.
proof fn lemma_entries_map_same_keys(
    a: Seq<(StampTaxDocumentCode, StampTaxDocumentParams)>,
    b: Seq<(StampTaxDocumentCode, StampTaxDocumentParams)>,
)
    requires
        a.len() == b.len(),
        forall|k: int| 0 <= k < a.len() ==> (#[trigger] a[k]).0 == b[k].0,
    ensures
        entries_map(a).dom() == entries_map(b).dom(),
    decreases a.len(),
{
    if a.len() > 0 {
        let (ra, rb) = (a.drop_last(), b.drop_last());
        assert forall|k: int| 0 <= k < ra.len() implies (#[trigger] ra[k]).0 == rb[k].0 by {
            assert(ra[k] == a[k] && rb[k] == b[k]);
        }
        lemma_entries_map_same_keys(ra, rb);
        assert(a[a.len() - 1].0 == b[b.len() - 1].0);
        assert(entries_map(a).dom() =~= entries_map(b).dom());
    }
}

/// The parameters of the stamp tax calculation.
///
/// Loaded from the statute data and converted to this type.
///
/// Legal basis: Stamp Tax Act, Schedule 1; Act on Special Measures
/// Concerning Taxation, Article 91.
#[derive(Debug, Clone)]
pub struct StampTaxParams {
    /// The parameters of each document code.
    pub documents: StampTaxDocumentMap,
}

impl StampTaxParams {
    /// The parameters of the document code, if the data has them.
    pub fn document_params(&self, code: StampTaxDocumentCode) -> (r: Option<&StampTaxDocumentParams>)
        ensures
            match r {
                Some(d) => self.documents@.contains_key(code) && *d == self.documents@[code],
                None => !self.documents@.contains_key(code),
            },
    {
        self.documents.get(code)
    }
}

} // verus!
