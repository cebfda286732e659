//! Choosing the language tag of a repository from its per-language line
//! counts.

use vstd::prelude::*;
use tokei::{Language, LanguageType, Languages};

verus! {

/// One line of a language report: a language's name and its lines of code.
#[derive(Debug, Clone)]
pub struct LanguageCount {
    pub name: String,
    pub code: usize,
}

/// A report as a list of names with their lines of code.
pub open spec fn report_model(report: Seq<LanguageCount>) -> Seq<(Seq<char>, nat)> {
    Seq::new(report.len(), |i: int| (report[i].name@, report[i].code as nat))
}

/// The statistics that `tokei` gathers, by language.
#[verifier::external_type_specification]
#[verifier::external_body]
pub struct ExLanguages(Languages);

/// The statistics of one language in a `tokei::Languages`.
#[verifier::external_type_specification]
#[verifier::external_body]
pub struct ExLanguage(Language);

/// The key under which a `tokei::Languages` holds a language.
#[verifier::external_type_specification]
#[verifier::external_body]
pub struct ExLanguageType(LanguageType);

/// What a `tokei::Languages` holds, as far as it is read here: for each
/// language, in the order in which the collection hands its entries out, the
/// name that the language is displayed under and the lines of code of its
/// summary.
pub uninterp spec fn language_counts(languages: Languages) -> Seq<(Seq<char>, nat)>;

/// Walks a `tokei::Languages` in its own order, that of its keys, and reads
/// each entry out into plain values: `LanguageType`'s `Display` for the name,
/// and `Language::summarise`, which adds the lines of code of embedded
/// languages to the language's own, for the count. The contract only says
/// that the list handed back is what the collection holds.
#[verifier::external_body]
pub(crate) fn read_counts(languages: &Languages) -> (report: Vec<LanguageCount>)
    ensures
        report_model(report@) == language_counts(*languages),
{
    languages
        .iter()
        .map(|(kind, language)| LanguageCount {
            name: kind.to_string(),
            code: language.summarise().code,
        })
        .collect()
}

/// What `str::to_lowercase` makes of a text. Unicode lowercasing is not
/// restated here.
pub uninterp spec fn lowercase(s: Seq<char>) -> Seq<char>;

/// Calls `str::to_lowercase`, which gives the lowercase equivalent of the
/// text as a new `String`. The contract only gives the result its name.
#[verifier::external_body]
pub(crate) fn to_lowercase(s: &str) -> (r: String)
    ensures
        r@ == lowercase(s@),
{
    s.to_lowercase()
}

/// The text without its spaces.
pub open spec fn drop_spaces(s: Seq<char>) -> Seq<char> {
    s.filter(|c: char| c != ' ')
}

/// The text with each underscore turned into a hyphen.
pub open spec fn hyphenate(s: Seq<char>) -> Seq<char> {
    s.map_values(|c: char| if c == '_' { '-' } else { c })
}

/// The word that stands for `c#`.
pub open spec fn csharp() -> Seq<char> {
    seq!['c', 's', 'h', 'a', 'r', 'p']
}

/// The text with each `c#`, from the left, spelled out as `csharp`.
pub open spec fn spell_csharp(s: Seq<char>) -> Seq<char>
    decreases s.len(),
{
    if s.len() == 0 {
        s
    } else if s.len() >= 2 && s[0] == 'c' && s[1] == '#' {
        csharp() + spell_csharp(s.skip(2))
    } else {
        seq![s[0]] + spell_csharp(s.skip(1))
    }
}

/// The tag of a lowercased name: the three rules, in this order.
pub open spec fn tidy(lowered: Seq<char>) -> Seq<char> {
    spell_csharp(hyphenate(drop_spaces(lowered)))
}

/// The tag of a language name.
pub open spec fn tag_of(name: Seq<char>) -> Seq<char> {
    tidy(lowercase(name))
}

/// Whether a tag is one of the markup and data formats that only count when
/// a repository holds no other language.
pub open spec fn is_filler_tag(tag: Seq<char>) -> bool {
    ||| tag == "json"@
    ||| tag == "yaml"@
    ||| tag == "html"@
    ||| tag == "css"@
    ||| tag == "markdown"@
}

/// Whether an entry belongs to the filler tier (`filler`) or to the
/// substantive one (`!filler`).
pub open spec fn in_tier(e: (Seq<char>, nat), filler: bool) -> bool {
    is_filler_tag(tag_of(e.0)) == filler
}

/// Entry `i` wins its tier: it has code, no entry of the tier has more, and
/// every earlier entry of the tier has less.
pub open spec fn is_tier_winner(report: Seq<(Seq<char>, nat)>, filler: bool, i: int) -> bool {
    &&& 0 <= i < report.len()
    &&& in_tier(report[i], filler)
    &&& report[i].1 > 0
    &&& forall|j: int|
        0 <= j < report.len() && in_tier(#[trigger] report[j], filler) ==> report[j].1
            <= report[i].1
    &&& forall|j: int|
        0 <= j < i && in_tier(#[trigger] report[j], filler) ==> report[j].1 < report[i].1
}

/// No entry of the tier has any code.
pub open spec fn tier_has_no_code(report: Seq<(Seq<char>, nat)>, filler: bool) -> bool {
    forall|j: int|
        0 <= j < report.len() && in_tier(#[trigger] report[j], filler) ==> report[j].1 == 0
}

/// The winner of a tier, if it has one.
pub open spec fn tier_winner(report: Seq<(Seq<char>, nat)>, filler: bool) -> Option<int> {
    if exists|i: int| is_tier_winner(report, filler, i) {
        Some(choose|i: int| is_tier_winner(report, filler, i))
    } else {
        None
    }
}

/// The tag under which a report is filed: that of the substantive winner,
/// else that of the filler winner, else `other`.
pub open spec fn top_tag(report: Seq<(Seq<char>, nat)>) -> Seq<char> {
    match tier_winner(report, false) {
        Some(i) => tag_of(report[i].0),
        None => match tier_winner(report, true) {
            Some(i) => tag_of(report[i].0),
            None => "other"@,
        },
    }
}

/// A tier has at most one winner.
pub proof fn tier_winner_is_unique(report: Seq<(Seq<char>, nat)>, filler: bool, i: int, j: int)
    requires
        is_tier_winner(report, filler, i),
        is_tier_winner(report, filler, j),
    ensures
        i == j,
{
    if i < j {
        assert(in_tier(report[i], filler));
    } else if j < i {
        assert(in_tier(report[j], filler));
    }
}

/// A tier without code has no winner.
pub proof fn tier_without_code_has_no_winner(report: Seq<(Seq<char>, nat)>, filler: bool)
    requires
        tier_has_no_code(report, filler),
    ensures
        tier_winner(report, filler) is None,
{
    assert forall|i: int| !is_tier_winner(report, filler, i) by {
        if is_tier_winner(report, filler, i) {
            assert(in_tier(report[i], filler));
        }
    }
}

/// The substantive language with the most code decides the tag, whatever the
/// filler formats hold.
pub proof fn substantive_winner_decides(report: Seq<(Seq<char>, nat)>, i: int)
    requires
        is_tier_winner(report, false, i),
    ensures
        top_tag(report) == tag_of(report[i].0),
{
    let w = choose|w: int| is_tier_winner(report, false, w);
    tier_winner_is_unique(report, false, i, w);
}

/// Where no substantive language has code, the filler format with the most
/// code decides the tag.
pub proof fn filler_winner_decides_alone(report: Seq<(Seq<char>, nat)>, i: int)
    requires
        tier_has_no_code(report, false),
        is_tier_winner(report, true, i),
    ensures
        top_tag(report) == tag_of(report[i].0),
{
    tier_without_code_has_no_winner(report, false);
    let w = choose|w: int| is_tier_winner(report, true, w);
    tier_winner_is_unique(report, true, i, w);
}

/// A report in which nothing has code is filed under `other`.
pub proof fn report_without_code_is_other(report: Seq<(Seq<char>, nat)>)
    requires
        tier_has_no_code(report, false),
        tier_has_no_code(report, true),
    ensures
        top_tag(report) == "other"@,
{
    tier_without_code_has_no_winner(report, false);
    tier_without_code_has_no_winner(report, true);
}

/// Whether two texts hold the same characters.
pub fn same_text(a: &str, b: &str) -> (same: bool)
    ensures
        same == (a@ == b@),
{
    let n = a.unicode_len();
    if b.unicode_len() != n {
        return false;
    }
    let mut i: usize = 0;
    while i < n
        invariant
            i <= n,
            n == a@.len(),
            n == b@.len(),
            forall|k: int| 0 <= k < i ==> a@[k] == b@[k],
        decreases n - i,
    {
        if a.get_char(i) != b.get_char(i) {
            return false;
        }
        i += 1;
    }
    assert(a@ =~= b@);
    true
}

/// Removes every space.
pub fn without_spaces(s: &str) -> (r: String)
    ensures
        r@ == drop_spaces(s@),
{
    let n = s.unicode_len();
    let mut out = String::new();
    let mut i: usize = 0;
    proof {
        reveal(Seq::filter);
        assert(s@.take(0) =~= Seq::<char>::empty());
    }
    while i < n
        invariant
            i <= n,
            n == s@.len(),
            out@ == drop_spaces(s@.take(i as int)),
        decreases n - i,
    {
        let c = s.get_char(i);
        proof {
            assert(s@.take(i + 1) =~= s@.take(i as int).push(c));
            s@.take(i as int).lemma_filter_push(c, |c: char| c != ' ');
            assert(s@.subrange(i as int, i + 1) =~= seq![c]);
        }
        if c != ' ' {
            out.append(s.substring_char(i, i + 1));
        }
        i += 1;
    }
    assert(s@.take(n as int) =~= s@);
    out
}

/// Turns every underscore into a hyphen.
pub fn with_hyphens(s: &str) -> (r: String)
    ensures
        r@ == hyphenate(s@),
{
    let n = s.unicode_len();
    let mut out = String::new();
    let mut i: usize = 0;
    proof {
        reveal_strlit("-");
    }
    while i < n
        invariant
            i <= n,
            n == s@.len(),
            "-"@ =~= seq!['-'],
            out@ =~= hyphenate(s@.take(i as int)),
        decreases n - i,
    {
        let c = s.get_char(i);
        if c == '_' {
            out.append("-");
        } else {
            out.append(s.substring_char(i, i + 1));
        }
        i += 1;
    }
    assert(s@.take(n as int) =~= s@);
    out
}

/// Spells each `c#` out as `csharp`.
pub fn with_csharp(s: &str) -> (r: String)
    ensures
        r@ == spell_csharp(s@),
{
    let n = s.unicode_len();
    let mut out = String::new();
    let mut i: usize = 0;
    proof {
        reveal_strlit("csharp");
        assert("csharp"@ =~= csharp());
        assert(s@.skip(0) =~= s@);
    }
    while i < n
        invariant
            i <= n,
            n == s@.len(),
            "csharp"@ == csharp(),
            out@ + spell_csharp(s@.skip(i as int)) =~= spell_csharp(s@),
        decreases n - i,
    {
        let c = s.get_char(i);
        let ghost rest = s@.skip(i as int);
        if c == 'c' && i + 1 < n && s.get_char(i + 1) == '#' {
            proof {
                assert(rest.skip(2) =~= s@.skip(i + 2));
                assert(rest[0] == 'c' && rest[1] == '#');
            }
            out.append("csharp");
            i += 2;
        } else {
            proof {
                assert(rest.skip(1) =~= s@.skip(i + 1));
                assert(rest[0] == c);
                assert(s@.subrange(i as int, i + 1) =~= seq![c]);
            }
            out.append(s.substring_char(i, i + 1));
            i += 1;
        }
    }
    assert(s@.skip(n as int) =~= Seq::<char>::empty());
    out
}

/// The tag of a name that is already in lowercase: without spaces, with
/// hyphens for underscores, and with `c#` spelled out.
pub fn tidy_tag(lowered: &str) -> (r: String)
    ensures
        r@ == tidy(lowered@),
{
    let a = without_spaces(lowered);
    let b = with_hyphens(a.as_str());
    with_csharp(b.as_str())
}

/// The tag of a language name: lowercased, then tidied.
pub fn language_tag(name: &str) -> (r: String)
    ensures
        r@ == tag_of(name@),
{
    let lowered = to_lowercase(name);
    tidy_tag(lowered.as_str())
}

/// Whether a tag names a markup or data format of the filler tier.
pub fn filler_tag(tag: &str) -> (filler: bool)
    ensures
        filler == is_filler_tag(tag@),
{
    same_text(tag, "json") || same_text(tag, "yaml") || same_text(tag, "html") || same_text(
        tag,
        "css",
    ) || same_text(tag, "markdown")
}

/// The entry that wins a tier of the report, by its index.
pub fn top_of_tier(report: &Vec<LanguageCount>, filler: bool) -> (r: Option<usize>)
    ensures
        match r {
            Some(i) => i < report@.len() && tier_winner(report_model(report@), filler) == Some(
                i as int,
            ),
            None => tier_winner(report_model(report@), filler) is None && tier_has_no_code(
                report_model(report@),
                filler,
            ),
        },
{
    let ghost model = report_model(report@);
    let mut best: Option<usize> = None;
    let mut best_code: usize = 0;
    let mut k: usize = 0;
    while k < report.len()
        invariant
            k <= report.len(),
            model == report_model(report@),
            match best {
                Some(i) => i < k && best_code == model[i as int].1 && is_tier_winner(
                    model.take(k as int),
                    filler,
                    i as int,
                ),
                None => best_code == 0 && tier_has_no_code(model.take(k as int), filler),
            },
        decreases report.len() - k,
    {
        let tag = language_tag(report[k].name.as_str());
        let code = report[k].code;
        let ghost before = model.take(k as int);
        let ghost after = model.take(k + 1);
        proof {
            assert forall|j: int| 0 <= j < k implies #[trigger] after[j] == before[j] by {}
            assert(after[k as int] == (report@[k as int].name@, code as nat));
        }
        if filler_tag(tag.as_str()) == filler && code > best_code {
            best = Some(k);
            best_code = code;
        }
        k += 1;
    }
    proof {
        assert(model.take(k as int) =~= model);
        match best {
            Some(i) => {
                let w = choose|w: int| is_tier_winner(model, filler, w);
                tier_winner_is_unique(model, filler, i as int, w);
            },
            None => {
                tier_without_code_has_no_winner(model, filler);
            },
        }
    }
    best
}

/// The tag under which a repository with this report is filed: that of the
/// substantive language with the most code; where no substantive language has
/// any, that of the filler format with the most; where none has any, `other`.
/// Among equals the earlier entry wins.
pub fn get_top_language(report: &Vec<LanguageCount>) -> (r: String)
    ensures
        r@ == top_tag(report_model(report@)),
{
    match top_of_tier(report, false) {
        Some(i) => language_tag(report[i].name.as_str()),
        None => match top_of_tier(report, true) {
            Some(i) => language_tag(report[i].name.as_str()),
            None => "other".to_owned(),
        },
    }
}

/// The tag under which a repository with these statistics is filed.
pub fn top_language_of(languages: &Languages) -> (r: String)
    ensures
        r@ == top_tag(language_counts(*languages)),
{
    let report = read_counts(languages);
    get_top_language(&report)
}

} // verus!
