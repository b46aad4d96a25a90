use vstd::prelude::*;

use crate::domains::stamp_tax::context::{StampTaxContext, StampTaxFlag};
use crate::domains::stamp_tax::params::{StampTaxDocumentParams, StampTaxSpecialRule};
use crate::flags::FlagSet;
use crate::text::lex_le;
use crate::types::date::{date_text, LegalDate};

verus! {

/// How the stamp tax calculation chooses the special rule that applies;
/// [`StandardNtaPolicy`] is the usual choice.
///
/// Users may supply their own policy; nothing is assumed of what it
/// returns, and the calculation states its result in terms of its answer.
pub trait StampTaxPolicy: Sized {
    /// The special rule to apply, if any.
    ///
    /// Legal basis: Stamp Tax Act, Schedule 1; Act on Special Measures
    /// Concerning Taxation, Article 91.
    fn select_special_rule<'a>(
        &self,
        ctx: &StampTaxContext<Self>,
        document: &'a StampTaxDocumentParams,
    ) -> Option<&'a StampTaxSpecialRule>;
}

/// The index of the special rule the standard policy selects among
/// `rules`, if any: of the rules in effect on the date, whose flags are all
/// given and that apply to the stated amount, the first of those with the
/// lowest priority number.
pub open spec fn standard_selection(
    target_date: LegalDate,
    stated_amount: Option<u64>,
    flags: Set<StampTaxFlag>,
    rules: Seq<StampTaxSpecialRule>,
) -> Option<int> {
    first_lowest(
        rules,
        |rule: StampTaxSpecialRule| rule_applies(rule, target_date, stated_amount, flags),
    )
}

/// The rule is in effect on the date, the flags it requires are given, and
/// it applies to the stated amount.
pub open spec fn rule_applies(
    rule: StampTaxSpecialRule,
    target_date: LegalDate,
    stated_amount: Option<u64>,
    flags: Set<StampTaxFlag>,
) -> bool {
    &&& rule.in_effect_on(date_text(target_date))
    &&& rule.flags_given(flags)
    &&& rule.applies_to_amount(stated_amount)
}

/// Rule `i` applies, no rule that applies has a lower priority, and every
/// rule before it that applies has a higher one: the first of the lowest.
pub open spec fn is_first_lowest(
    rules: Seq<StampTaxSpecialRule>,
    applies: spec_fn(StampTaxSpecialRule) -> bool,
    i: int,
) -> bool {
    &&& 0 <= i < rules.len()
    &&& applies(rules[i])
    &&& forall|j: int|
        0 <= j < rules.len() && applies(#[trigger] rules[j]) ==> rules[i].priority
            <= rules[j].priority
    &&& forall|j: int| 0 <= j < i && applies(#[trigger] rules[j]) ==> rules[i].priority < rules[j].priority
}

/// The first of the rules of lowest priority among those that apply, if
/// any applies.
pub open spec fn first_lowest(
    rules: Seq<StampTaxSpecialRule>,
    applies: spec_fn(StampTaxSpecialRule) -> bool,
) -> Option<int> {
    if exists|i: int| is_first_lowest(rules, applies, i) {
        Some(choose|i: int| is_first_lowest(rules, applies, i))
    } else {
        None
    }
}

/// At most one rule is the first of the lowest.
pub proof fn lemma_first_lowest_unique(
    rules: Seq<StampTaxSpecialRule>,
    applies: spec_fn(StampTaxSpecialRule) -> bool,
    i: int,
    j: int,
)
    requires
        is_first_lowest(rules, applies, i),
        is_first_lowest(rules, applies, j),
    ensures
        i == j,
{
    if i < j {
        assert(applies(rules[i]));
    } else if j < i {
        assert(applies(rules[j]));
    }
}

/// The standard policy selects only a rule in effect on the target date: a
/// rule whose period starts later than the date (in the text order of
/// `YYYY-MM-DD`, which is the order in time) or ended before it is never
/// selected.
pub proof fn lemma_standard_selection_in_effect(
    target_date: LegalDate,
    stated_amount: Option<u64>,
    flags: Set<StampTaxFlag>,
    rules: Seq<StampTaxSpecialRule>,
)
    requires
        standard_selection(target_date, stated_amount, flags, rules) is Some,
    ensures
        ({
            let rule = rules[standard_selection(target_date, stated_amount, flags, rules)->0];
            &&& rule.effective_from matches Some(from) ==> lex_le(from@, date_text(target_date))
            &&& rule.effective_until matches Some(until) ==> lex_le(date_text(target_date), until@)
        }),
{
    let applies = |rule: StampTaxSpecialRule|
        rule_applies(rule, target_date, stated_amount, flags);
    let i = standard_selection(target_date, stated_amount, flags, rules)->0;
    assert(is_first_lowest(rules, applies, i));
    assert(applies(rules[i]));
}

/// The standard reading of the National Tax Agency: of the special rules in
/// effect on the date, whose flags are all given and that apply to the
/// stated amount, the first of those with the lowest priority number.
#[derive(Debug, Clone, Copy)]
pub struct StandardNtaPolicy;

/// Whether every flag the rule requires is in `flags`.
fn required_flags_given(rule: &StampTaxSpecialRule, flags: &FlagSet<StampTaxFlag>) -> (r: bool)
    ensures
        r == rule.flags_given(flags@),
{
    let mut i: usize = 0;
    while i < rule.required_flags.len()
        invariant
            0 <= i <= rule.required_flags@.len(),
            forall|k: int| 0 <= k < i ==> flags@.contains(#[trigger] rule.required_flags@[k]),
        decreases rule.required_flags@.len() - i,
    {
        if !flags.contains(&rule.required_flags[i]) {
            return false;
        }
        i = i + 1;
    }
    true
}

impl StampTaxPolicy for StandardNtaPolicy {
    fn select_special_rule<'a>(
        &self,
        ctx: &StampTaxContext<Self>,
        document: &'a StampTaxDocumentParams,
    ) -> (r: Option<&'a StampTaxSpecialRule>)
        ensures
            match standard_selection(
                ctx.target_date,
                ctx.stated_amount,
                ctx.flags@,
                document.special_rules@,
            ) {
                Some(i) => 0 <= i < document.special_rules@.len() && (r matches Some(rule)
                    && *rule == document.special_rules@[i]),
                None => r is None,
            },
            r matches Some(rule) ==> (rule.effective_from matches Some(from) ==> lex_le(
                from@,
                date_text(ctx.target_date),
            )),
            r matches Some(rule) ==> (rule.effective_until matches Some(until) ==> lex_le(
                date_text(ctx.target_date),
                until@,
            )),
    {
        let date_str = ctx.target_date.to_date_str();
        let rules = &document.special_rules;
        let ghost applies = |rule: StampTaxSpecialRule|
            rule_applies(rule, ctx.target_date, ctx.stated_amount, ctx.flags@);
        let mut best: Option<usize> = None;
        let mut i: usize = 0;
        while i < rules.len()
            invariant
                0 <= i <= rules@.len(),
                date_str@ == date_text(ctx.target_date),
                applies == (|rule: StampTaxSpecialRule|
                    rule_applies(rule, ctx.target_date, ctx.stated_amount, ctx.flags@)),
                match best {
                    None => forall|j: int| 0 <= j < i ==> !applies(#[trigger] rules@[j]),
                    Some(b) => {
                        &&& b < i
                        &&& applies(rules@[b as int])
                        &&& forall|j: int|
                            0 <= j < i && applies(#[trigger] rules@[j]) ==> rules@[b as int].priority
                                <= rules@[j].priority
                        &&& forall|j: int|
                            0 <= j < b && applies(#[trigger] rules@[j])
                                ==> rules@[b as int].priority < rules@[j].priority
                    },
                },
            decreases rules@.len() - i,
        {
            let rule = &rules[i];
            let applies_now = rule.matches_date(date_str.as_str()) && required_flags_given(
                rule,
                &ctx.flags,
            ) && rule.matches_amount(ctx.stated_amount);
            proof {
                assert(applies_now == applies(rules@[i as int]));
            }
            if applies_now {
                let better = match best {
                    None => true,
                    Some(b) => rule.priority < rules[b].priority,
                };
                if better {
                    best = Some(i);
                }
            }
            i = i + 1;
        }
        match best {
            None => {
                proof {
                    assert(!exists|k: int| is_first_lowest(rules@, applies, k));
                }
                None
            },
            Some(b) => {
                proof {
                    assert(is_first_lowest(rules@, applies, b as int));
                    let c = choose|k: int| is_first_lowest(rules@, applies, k);
                    lemma_first_lowest_unique(rules@, applies, b as int, c);
                }
                Some(&rules[b])
            },
        }
    }
}

} // verus!
