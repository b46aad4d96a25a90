use vstd::prelude::*;

use crate::text::{decimal, push_decimal};
use crate::types::date::LegalDate;

verus! {

/// A reference to the statute article that a calculation rests on.
#[derive(Debug, Clone, PartialEq, Eq)]
pub struct LegalCitation {
    /// Identifier of the statute (e.g. `"reitaku-46"`).
    pub law_id: String,
    /// Official name of the statute.
    pub law_name: String,
    /// Article number.
    pub article: u16,
    /// Paragraph number, if any.
    pub paragraph: Option<u16>,
    /// Item number, if any.
    pub item: Option<u16>,
    /// Date the provision took effect.
    pub effective_date: LegalDate,
}

/// The display text of a citation: `{law_name} 第{article}条`, then
/// `第{paragraph}項` and `第{item}号` when present.
pub open spec fn citation_text(c: LegalCitation) -> Seq<char> {
    let base = c.law_name@ + " 第"@ + decimal(c.article as nat) + "条"@;
    let with_paragraph = match c.paragraph {
        Some(p) => base + "第"@ + decimal(p as nat) + "項"@,
        None => base,
    };
    match c.item {
        Some(i) => with_paragraph + "第"@ + decimal(i as nat) + "号"@,
        None => with_paragraph,
    }
}

impl LegalCitation {
    /// A citation of a whole article, without paragraph or item.
    pub fn article_only(law_id: &str, law_name: &str, article: u16, effective_date: LegalDate) -> (r:
        Self)
        ensures
            r.law_id@ == law_id@,
            r.law_name@ == law_name@,
            r.article == article,
            r.paragraph is None,
            r.item is None,
            r.effective_date == effective_date,
    {
        LegalCitation {
            law_id: law_id.to_owned(),
            law_name: law_name.to_owned(),
            article,
            paragraph: None,
            item: None,
            effective_date,
        }
    }

    /// The display text of the citation, e.g. `宅地建物取引業法 第46条第1項第2号`.
    pub fn display_text(&self) -> (s: String)
        ensures
            s@ == citation_text(*self),
    {
        let mut s = self.law_name.clone();
        s.append(" 第");
        push_decimal(&mut s, self.article as u64);
        s.append("条");
        if let Some(p) = self.paragraph {
            s.append("第");
            push_decimal(&mut s, p as u64);
            s.append("項");
        }
        if let Some(i) = self.item {
            s.append("第");
            push_decimal(&mut s, i as u64);
            s.append("号");
        }
        s
    }
}

} // verus!
