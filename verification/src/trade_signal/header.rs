//! Signal headers: an exact match of one whitelisted header at the very start
//! of the input gives `(AssetClass, Language)` and the text after the closing
//! `】`.
//!
//! No whitespace or other prefix is tolerated before the header, and the
//! header uses the full-width brackets `【…】` (U+3010 / U+3011). A half-width
//! `[` header, an unknown header or a header preceded by whitespace →
//! [`ParseError::UnknownHeader`].
//!
//! Two whitelists exist: the short headers (`【现货】`, `【SPOT】`, …) matched by
//! [`parse_header`], and the full signal titles (`【现货信号】`,
//! `【Spot Signal】`, …) that open a signal text, matched by [`parse_title`].
//! Each has one header per asset class and language.

use vstd::prelude::*;
use crate::asset_class::AssetClass;
use crate::text::{chars_of, has_prefix, starts_with};
use super::format::{spec_detect_format, InputFormat};
use super::error::ParseError;
use super::Language;

verus! {

pub type HeaderEntry = (&'static str, AssetClass, Language);

/// The short-header whitelist, in matching order.
pub open spec fn short_headers() -> Seq<(Seq<char>, AssetClass, Language)> {
    seq![
        ("【现货】"@, AssetClass::Spot, Language::Zh),
        ("【SPOT】"@, AssetClass::Spot, Language::En),
        ("【合约】"@, AssetClass::Perp, Language::Zh),
        ("【PERP】"@, AssetClass::Perp, Language::En),
        ("【预测】"@, AssetClass::Prediction, Language::Zh),
        ("【PREDICTION】"@, AssetClass::Prediction, Language::En),
        ("【期权】"@, AssetClass::Option, Language::Zh),
        ("【OPTION】"@, AssetClass::Option, Language::En),
        ("【理财】"@, AssetClass::Defi, Language::Zh),
        ("【DEFI】"@, AssetClass::Defi, Language::En),
    ]
}

/// The signal-title whitelist, in matching order.
pub open spec fn title_headers() -> Seq<(Seq<char>, AssetClass, Language)> {
    seq![
        ("【现货信号】"@, AssetClass::Spot, Language::Zh),
        ("【Spot Signal】"@, AssetClass::Spot, Language::En),
        ("【合约信号】"@, AssetClass::Perp, Language::Zh),
        ("【Futures Signal】"@, AssetClass::Perp, Language::En),
        ("【预测市场信号】"@, AssetClass::Prediction, Language::Zh),
        ("【Prediction Signal】"@, AssetClass::Prediction, Language::En),
        ("【期权信号】"@, AssetClass::Option, Language::Zh),
        ("【Options Signal】"@, AssetClass::Option, Language::En),
        ("【DeFi 信号】"@, AssetClass::Defi, Language::Zh),
        ("【DeFi Signal】"@, AssetClass::Defi, Language::En),
    ]
}

/// The first header of `t` that starts `s`: its class, its language and the
/// rest of `s`.
pub open spec fn match_header(t: Seq<(Seq<char>, AssetClass, Language)>, s: Seq<char>) -> Option<(AssetClass, Language, Seq<char>)>
    decreases t.len(),
{
    if t.len() == 0 {
        None
    } else if has_prefix(s, t[0].0) {
        Some((t[0].1, t[0].2, s.skip(t[0].0.len() as int)))
    } else {
        match_header(t.drop_first(), s)
    }
}

pub open spec fn spec_match(t: Seq<(Seq<char>, AssetClass, Language)>, s: Seq<char>) -> Result<(AssetClass, Language, Seq<char>), ParseError> {
    match match_header(t, s) {
        Some(x) => Ok(x),
        None => Err(ParseError::UnknownHeader),
    }
}

pub open spec fn header_result_view(r: Result<(AssetClass, Language, &str), ParseError>) -> Result<(AssetClass, Language, Seq<char>), ParseError> {
    match r {
        Ok((c, l, rest)) => Ok((c, l, rest@)),
        Err(e) => Err(e),
    }
}

pub open spec fn table_view(v: Seq<HeaderEntry>) -> Seq<(Seq<char>, AssetClass, Language)> {
    v.map_values(|e: HeaderEntry| (e.0@, e.1, e.2))
}

fn short_table() -> (r: Vec<HeaderEntry>)
    ensures
        table_view(r@) == short_headers(),
{
    let r = vec![
        ("【现货】", AssetClass::Spot, Language::Zh),
        ("【SPOT】", AssetClass::Spot, Language::En),
        ("【合约】", AssetClass::Perp, Language::Zh),
        ("【PERP】", AssetClass::Perp, Language::En),
        ("【预测】", AssetClass::Prediction, Language::Zh),
        ("【PREDICTION】", AssetClass::Prediction, Language::En),
        ("【期权】", AssetClass::Option, Language::Zh),
        ("【OPTION】", AssetClass::Option, Language::En),
        ("【理财】", AssetClass::Defi, Language::Zh),
        ("【DEFI】", AssetClass::Defi, Language::En),
    ];
    assert(table_view(r@) =~= short_headers());
    r
}

fn title_table() -> (r: Vec<HeaderEntry>)
    ensures
        table_view(r@) == title_headers(),
{
    let r = vec![
        ("【现货信号】", AssetClass::Spot, Language::Zh),
        ("【Spot Signal】", AssetClass::Spot, Language::En),
        ("【合约信号】", AssetClass::Perp, Language::Zh),
        ("【Futures Signal】", AssetClass::Perp, Language::En),
        ("【预测市场信号】", AssetClass::Prediction, Language::Zh),
        ("【Prediction Signal】", AssetClass::Prediction, Language::En),
        ("【期权信号】", AssetClass::Option, Language::Zh),
        ("【Options Signal】", AssetClass::Option, Language::En),
        ("【DeFi 信号】", AssetClass::Defi, Language::Zh),
        ("【DeFi Signal】", AssetClass::Defi, Language::En),
    ];
    assert(table_view(r@) =~= title_headers());
    r
}

/// Matches the leading header of `input` against a whitelist.
fn match_table<'a>(table: &Vec<HeaderEntry>, input: &'a str) -> (r: Result<(AssetClass, Language, &'a str), ParseError>)
    ensures
        header_result_view(r) == spec_match(table_view(table@), input@),
{
    let ghost t = table_view(table@);
    let v = chars_of(input);
    let mut i: usize = 0;
    assert(t.skip(0) =~= t);
    while i < table.len()
        invariant
            i <= table@.len(),
            t == table_view(table@),
            v@ == input@,
            match_header(t, input@) == match_header(t.skip(i as int), input@),
        decreases table@.len() - i,
    {
        let (lit, class, lang) = table[i];
        let p = chars_of(lit);
        assert(t.skip(i as int)[0] == (lit@, class, lang));
        if starts_with(v.as_slice(), p.as_slice()) {
            let n = input.unicode_len();
            let rest = input.substring_char(p.len(), n);
            assert(rest@ =~= input@.skip(lit@.len() as int));
            return Ok((class, lang, rest));
        }
        assert(t.skip(i as int).drop_first() =~= t.skip(i + 1));
        i = i + 1;
    }
    Err(ParseError::UnknownHeader)
}

/// Matches a leading short header exactly; returns `(class, language,
/// remainder)`.
pub fn parse_header(input: &str) -> (r: Result<(AssetClass, Language, &str), ParseError>)
    ensures
        header_result_view(r) == spec_match(short_headers(), input@),
{
    let t = short_table();
    match_table(&t, input)
}

/// Matches a leading signal title exactly; returns `(class, language,
/// remainder)`.
pub fn parse_title(input: &str) -> (r: Result<(AssetClass, Language, &str), ParseError>)
    ensures
        header_result_view(r) == spec_match(title_headers(), input@),
{
    let t = title_table();
    match_table(&t, input)
}

/// Every header of the whitelist opens with the full-width `【`.
pub open spec fn opens_with_bracket(t: Seq<(Seq<char>, AssetClass, Language)>) -> bool {
    forall|i: int| 0 <= i < t.len() ==> (#[trigger] t[i]).0.len() > 0 && t[i].0[0] == '\u{3010}'
}

proof fn lemma_match_opens_with_bracket(t: Seq<(Seq<char>, AssetClass, Language)>, s: Seq<char>)
    requires
        opens_with_bracket(t),
        match_header(t, s) is Some,
    ensures
        s.len() > 0 && s[0] == '\u{3010}',
    decreases t.len(),
{
    if has_prefix(s, t[0].0) {
        assert(s.take(t[0].0.len() as int)[0] == s[0]);
    } else {
        assert forall|i: int| 0 <= i < t.drop_first().len() implies (#[trigger] t.drop_first()[i]).0.len() > 0
            && t.drop_first()[i].0[0] == '\u{3010}' by {
            assert(t.drop_first()[i] == t[i + 1]);
        }
        lemma_match_opens_with_bracket(t.drop_first(), s);
    }
}

/// A header is recognised only when it is the very start of the input, so the
/// input's first character is `【`: the input then classifies as a text
/// signal, and input that opens with whitespace or a half-width `[` never
/// has a header.
pub proof fn lemma_header_opens_input(s: Seq<char>)
    ensures
        spec_match(short_headers(), s) is Ok ==> spec_detect_format(s) == InputFormat::V2Text,
        spec_match(title_headers(), s) is Ok ==> spec_detect_format(s) == InputFormat::V2Text,
{
    reveal_strlit("【现货】");
    reveal_strlit("【SPOT】");
    reveal_strlit("【合约】");
    reveal_strlit("【PERP】");
    reveal_strlit("【预测】");
    reveal_strlit("【PREDICTION】");
    reveal_strlit("【期权】");
    reveal_strlit("【OPTION】");
    reveal_strlit("【理财】");
    reveal_strlit("【DEFI】");
    reveal_strlit("【现货信号】");
    reveal_strlit("【Spot Signal】");
    reveal_strlit("【合约信号】");
    reveal_strlit("【Futures Signal】");
    reveal_strlit("【预测市场信号】");
    reveal_strlit("【Prediction Signal】");
    reveal_strlit("【期权信号】");
    reveal_strlit("【Options Signal】");
    reveal_strlit("【DeFi 信号】");
    reveal_strlit("【DeFi Signal】");
    assert(opens_with_bracket(short_headers()));
    assert(opens_with_bracket(title_headers()));
    if spec_match(short_headers(), s) is Ok {
        lemma_match_opens_with_bracket(short_headers(), s);
    }
    if spec_match(title_headers(), s) is Ok {
        lemma_match_opens_with_bracket(title_headers(), s);
    }
}

} // verus!
