//! Which of the shipped locales the window uses.

use crate::config::AppSettings;
use crate::device::opt_text;
use crate::text;
use fluent_langneg::{negotiate_languages, LanguageIdentifier, NegotiationStrategy};
use vstd::prelude::*;

verus! {

/// Locales the window ships, as `(code, native name)`, in the order shown in the
/// settings: native-name alphabetical within each script.
pub const SUPPORTED: [(&'static str, &'static str); 20] = [
    ("da", "Dansk"),
    ("de", "Deutsch"),
    ("en", "English"),
    ("es", "Español"),
    ("fr", "Français"),
    ("it", "Italiano"),
    ("nl", "Nederlands"),
    ("nb", "Norsk"),
    ("pl", "Polski"),
    ("pt-PT", "Português"),
    ("pt-BR", "Português - Brasil"),
    ("fi", "Suomi"),
    ("sv", "Svenska"),
    ("el", "Ελληνικά"),
    ("ru", "Русский"),
    ("ja", "日本語"),
    ("zh-CN", "简体中文"),
    ("zh-HK", "繁體中文（香港）"),
    ("zh-TW", "正體中文（臺灣）"),
    ("ko", "한국어"),
];

/// What the shipped locales are matched by: language, script and region of a
/// language tag.
pub type TagModel = (Seq<char>, Option<Seq<char>>, Option<Seq<char>>);

/// The subtags of a language tag that decide between the shipped locales.
pub struct LanguageTag {
    /// Primary language subtag, in lower case.
    pub language: String,
    /// Script subtag, in title case.
    pub script: Option<String>,
    /// Region subtag, in upper case.
    pub region: Option<String>,
}

impl View for LanguageTag {
    type V = TagModel;

    open spec fn view(&self) -> TagModel {
        (self.language@, opt_text(self.script), opt_text(self.region))
    }
}

/// What `LanguageIdentifier::from_str` reads from a language tag, as language,
/// script and region; none where the tag is not well formed.
pub uninterp spec fn parsed_tag(code: Seq<char>) -> Option<(
    Seq<char>,
    Option<Seq<char>>,
    Option<Seq<char>>,
)>;

/// The first locale that `negotiate_languages` finds for one requested tag in a
/// list of offered ones, with the lookup strategy and no default, in its canonical
/// spelling; none where nothing matches or a tag is not well formed.
pub uninterp spec fn negotiated(requested: Seq<char>, offered: Seq<Seq<char>>) -> Option<Seq<char>>;

/// Parses a language tag with `str::parse::<LanguageIdentifier>`, and takes over
/// the three subtags that it finds. That the result depends on the text alone is
/// trusted.
#[verifier::external_body]
fn parse_tag(code: &str) -> (tag: Option<LanguageTag>)
    ensures
        match tag {
            Some(tag) => parsed_tag(code@) == Some(tag@),
            None => parsed_tag(code@) is None,
        },
{
    let id = code.parse::<LanguageIdentifier>().ok()?;
    Some(
        LanguageTag {
            language: id.language.as_str().to_owned(),
            script: id.script.map(|script| script.as_str().to_owned()),
            region: id.region.map(|region| region.as_str().to_owned()),
        },
    )
}

/// Calls `fluent_langneg::negotiate_languages` with one requested tag, the offered
/// ones, no default and the lookup strategy, and takes the first answer. That the
/// answer depends on the texts alone is trusted.
#[verifier::external_body]
fn negotiate(requested: &str, offered: &Vec<&'static str>) -> (found: Option<String>)
    ensures
        opt_text(found) == negotiated(requested@, texts(offered@)),
{
    let requested = requested.parse::<LanguageIdentifier>().ok()?;
    let offered = offered.iter().map(|code| code.parse::<LanguageIdentifier>()).collect::<
        Result<Vec<_>, _>,
    >().ok()?;
    let found = negotiate_languages(&[requested], &offered, None, NegotiationStrategy::Lookup);
    found.first().map(|id| id.to_string())
}

/// Asks `sys_locale::get_locale` for the system's preferred locale. The answer
/// depends on the machine, and nothing is promised of it.
#[verifier::external_body]
fn system_locale() -> (locale: Option<String>) {
    sys_locale::get_locale()
}

/// The contents of a list of string slices.
pub open spec fn texts(codes: Seq<&'static str>) -> Seq<Seq<char>> {
    Seq::new(codes.len(), |i: int| codes[i]@)
}

/// The shipped codes, in order.
pub open spec fn supported_codes() -> Seq<Seq<char>> {
    Seq::new(20, |i: int| SUPPORTED@[i].0@)
}

/// A tag with its underscores written as hyphens.
pub open spec fn hyphenated(code: Seq<char>) -> Seq<char> {
    Seq::new(
        code.len(),
        |i: int|
            if code[i] == '_' {
                '-'
            } else {
                code[i]
            },
    )
}

/// The locale that a tag's family fixes by rule, if it is one of the families with
/// rules of their own.
pub open spec fn special(tag: TagModel) -> Option<Seq<char>> {
    let (language, script, region) = tag;
    if language == "nb"@ || language == "nn"@ || language == "no"@ {
        Some("nb"@)
    } else if language == "pt"@ {
        Some(
            if region == Some("BR"@) {
                "pt-BR"@
            } else {
                "pt-PT"@
            },
        )
    } else if language == "zh"@ {
        Some(
            if script == Some("Hans"@) {
                "zh-CN"@
            } else if region == Some("HK"@) || region == Some("MO"@) {
                "zh-HK"@
            } else if region == Some("TW"@) || script == Some("Hant"@) {
                "zh-TW"@
            } else {
                "zh-CN"@
            },
        )
    } else {
        None
    }
}

/// A locale code, if it is shipped.
pub open spec fn shipped(code: Option<Seq<char>>) -> Option<Seq<char>> {
    match code {
        Some(code) => if supported_codes().contains(code) {
            Some(code)
        } else {
            None
        },
        None => None,
    }
}

/// The shipped locale for a tag, given what negotiation finds for it.
pub open spec fn chosen_locale(tag: Option<TagModel>, found: Option<Seq<char>>) -> Option<Seq<char>> {
    match tag {
        Some(tag) => if special(tag) is Some {
            special(tag)
        } else {
            shipped(found)
        },
        None => None,
    }
}

/// The shipped locale for an arbitrary code.
pub open spec fn matched(code: Seq<char>) -> Option<Seq<char>> {
    chosen_locale(
        parsed_tag(hyphenated(code)),
        negotiated(hyphenated(code), supported_codes()),
    )
}

/// The shipped locale for an optional code.
pub open spec fn matched_option(code: Option<Seq<char>>) -> Option<Seq<char>> {
    match code {
        Some(code) => matched(code),
        None => None,
    }
}

/// The locale for a stored setting and a system locale.
pub open spec fn resolved(setting: Option<Seq<char>>, system: Option<Seq<char>>) -> Seq<char> {
    match matched_option(setting) {
        Some(code) => code,
        None => match matched_option(system) {
            Some(code) => code,
            None => "en"@,
        },
    }
}

/// Whether an optional subtag is a given text.
fn is_subtag(subtag: &Option<String>, expected: &str) -> (same: bool)
    ensures
        same == (opt_text(*subtag) == Some(expected@)),
{
    match subtag {
        Some(subtag) => text::str_eq(subtag.as_str(), expected),
        None => false,
    }
}

/// The tag with hyphens in place of underscores.
fn hyphenate(code: &str) -> (tag: String)
    ensures
        tag@ == hyphenated(code@),
{
    let length: usize = code.unicode_len();
    let mut tag = String::new();
    let mut i: usize = 0;
    while i < length
        invariant
            length == code@.len(),
            i <= length,
            tag@ == hyphenated(code@).subrange(0, i as int),
        decreases length - i,
    {
        let c = code.get_char(i);
        tag.push(
            if c == '_' {
                '-'
            } else {
                c
            },
        );
        assert(hyphenated(code@).subrange(0, i + 1) == hyphenated(code@).subrange(0, i as int).push(
            hyphenated(code@)[i as int],
        ));
        i += 1;
    }
    assert(hyphenated(code@).subrange(0, i as int) == hyphenated(code@));
    tag
}

/// The shipped locale of a family that needs more than its language:
/// - `zh` goes by script and region: `Hans` is always `zh-CN`, the regions `HK` and
///   `MO` are `zh-HK`, the region `TW` or a bare `Hant` is `zh-TW`, and `zh-CN`
///   otherwise;
/// - `pt` splits on its region: `BR` is `pt-BR`, anything else `pt-PT`;
/// - Norwegian's `nb`, `nn` and `no` all fold onto `nb`.
#[must_use]
pub fn special_locale(tag: &LanguageTag) -> (locale: Option<&'static str>)
    ensures
        text::opt_view(locale) == special(tag@),
{
    let language = tag.language.as_str();
    if text::str_eq(language, "nb") || text::str_eq(language, "nn") || text::str_eq(language, "no") {
        return Some("nb");
    }
    if text::str_eq(language, "pt") {
        return if is_subtag(&tag.region, "BR") {
            Some("pt-BR")
        } else {
            Some("pt-PT")
        };
    }
    if text::str_eq(language, "zh") {
        return if is_subtag(&tag.script, "Hans") {
            Some("zh-CN")
        } else if is_subtag(&tag.region, "HK") || is_subtag(&tag.region, "MO") {
            Some("zh-HK")
        } else if is_subtag(&tag.region, "TW") || is_subtag(&tag.script, "Hant") {
            Some("zh-TW")
        } else {
            Some("zh-CN")
        };
    }
    None
}

/// The shipped locale with a given code.
#[must_use]
pub fn shipped_locale(code: &str) -> (locale: Option<&'static str>)
    ensures
        text::opt_view(locale) == shipped(Some(code@)),
{
    let mut i: usize = 0;
    while i < 20
        invariant
            i <= 20,
            forall|j: int| 0 <= j < i ==> #[trigger] supported_codes()[j] != code@,
        decreases 20 - i,
    {
        let candidate = SUPPORTED[i].0;
        assert(supported_codes()[i as int] == candidate@);
        if text::str_eq(candidate, code) {
            return Some(candidate);
        }
        i += 1;
    }
    None
}

/// The shipped locale for a well-formed tag, given what negotiation found for it.
#[must_use]
pub fn choose_locale(tag: &LanguageTag, found: Option<&str>) -> (locale: Option<&'static str>)
    ensures
        text::opt_view(locale) == chosen_locale(Some(tag@), text::opt_view(found)),
{
    let fixed = special_locale(tag);
    if fixed.is_some() {
        return fixed;
    }
    match found {
        Some(code) => shipped_locale(code),
        None => None,
    }
}

/// The codes offered to negotiation.
fn offered_codes() -> (codes: Vec<&'static str>)
    ensures
        texts(codes@) == supported_codes(),
{
    let mut codes: Vec<&'static str> = Vec::new();
    let mut i: usize = 0;
    while i < 20
        invariant
            i <= 20,
            codes@.len() == i,
            forall|j: int| 0 <= j < i ==> (#[trigger] codes@[j])@ == SUPPORTED@[j].0@,
        decreases 20 - i,
    {
        codes.push(SUPPORTED[i].0);
        i += 1;
    }
    codes
}

/// Collapses an arbitrary locale onto one of [`SUPPORTED`], or nothing.
#[must_use]
pub fn match_supported(code: &str) -> (locale: Option<&'static str>)
    ensures
        text::opt_view(locale) == matched(code@),
{
    let code = hyphenate(code);
    match parse_tag(code.as_str()) {
        Some(tag) => {
            let found = negotiate(code.as_str(), &offered_codes());
            match &found {
                Some(found) => choose_locale(&tag, Some(found.as_str())),
                None => choose_locale(&tag, None),
            }
        },
        None => None,
    }
}

/// The locale to use for a stored setting and a system locale: the setting where
/// it is recognized, then the system's, and finally `"en"`.
#[must_use]
pub fn resolve_with(setting: Option<&str>, system: Option<&str>) -> (locale: &'static str)
    ensures
        locale@ == resolved(text::opt_view(setting), text::opt_view(system)),
{
    if let Some(setting) = setting {
        if let Some(locale) = match_supported(setting) {
            return locale;
        }
    }
    if let Some(system) = system {
        if let Some(locale) = match_supported(system) {
            return locale;
        }
    }
    "en"
}

/// The locale to use, preferring an explicit stored `setting`, then the system
/// locale, and finally `"en"`. An unrecognized stored code is treated as "follow
/// system" rather than failing.
#[must_use]
pub fn resolve(setting: Option<&str>) -> (locale: &'static str)
    ensures
        exists|system: Option<Seq<char>>|
            locale@ == #[trigger] resolved(text::opt_view(setting), system),
        matched_option(text::opt_view(setting)) matches Some(code) ==> locale@ == code,
{
    match system_locale() {
        Some(system) => resolve_with(setting, Some(system.as_str())),
        None => resolve_with(setting, None),
    }
}

/// The locale that the stored settings ask for at startup.
pub fn apply(settings: &AppSettings) -> (locale: &'static str)
    ensures
        exists|system: Option<Seq<char>>|
            locale@ == #[trigger] resolved(opt_text(settings.language), system),
        matched_option(opt_text(settings.language)) matches Some(code) ==> locale@ == code,
{
    match &settings.language {
        Some(language) => resolve(Some(language.as_str())),
        None => resolve(None),
    }
}

/// Whatever is stored and whatever the system says, the locale that is used is one
/// of the shipped ones.
pub proof fn law_resolved_locale_is_shipped(
    setting: Option<Seq<char>>,
    system: Option<Seq<char>>,
)
    ensures
        supported_codes().contains(resolved(setting, system)),
{
    assert(supported_codes()[2] == "en"@);
    assert(supported_codes()[7] == "nb"@);
    assert(supported_codes()[9] == "pt-PT"@);
    assert(supported_codes()[10] == "pt-BR"@);
    assert(supported_codes()[16] == "zh-CN"@);
    assert(supported_codes()[17] == "zh-HK"@);
    assert(supported_codes()[18] == "zh-TW"@);
}

/// A recognized stored setting decides alone, and an unrecognized one follows the
/// system.
pub proof fn law_setting_wins_over_system(
    setting: Option<Seq<char>>,
    system: Option<Seq<char>>,
    other: Option<Seq<char>>,
)
    ensures
        matched_option(setting) is Some ==> resolved(setting, system) == resolved(setting, other),
        matched_option(setting) is None ==> resolved(setting, system) == resolved(None, system),
{
}

/// Among the Chinese tags the script wins where it is `Hans`, and the region wins
/// over `Hant`.
pub proof fn law_script_and_region(region: Option<Seq<char>>, script: Option<Seq<char>>)
    ensures
        special(("zh"@, Some("Hans"@), region)) == Some("zh-CN"@),
        script != Some("Hans"@) ==> special(("zh"@, script, Some("HK"@))) == Some("zh-HK"@),
{
    reveal_strlit("zh");
    reveal_strlit("nb");
    reveal_strlit("nn");
    reveal_strlit("no");
    reveal_strlit("pt");
    assert("zh"@[0] != "nb"@[0]);
    assert("zh"@[0] != "nn"@[0]);
    assert("zh"@[0] != "no"@[0]);
    assert("zh"@[0] != "pt"@[0]);
}

/// How underscores are read: as hyphens, with everything else as it is.
pub proof fn law_underscores_are_hyphens(code: Seq<char>, i: int)
    requires
        0 <= i < code.len(),
    ensures
        hyphenated(code).len() == code.len(),
        code[i] == '_' ==> hyphenated(code)[i] == '-',
        code[i] != '_' ==> hyphenated(code)[i] == code[i],
{
}

/// Which languages go their own way: each kind of Norwegian to Bokmål; Portuguese to
/// Brazil's for Brazil and to Portugal's otherwise; Chinese written in simplified signs to
/// the mainland's, then by region, and by its script where the region does not decide.
pub proof fn law_languages_of_their_own(
    language: Seq<char>,
    script: Option<Seq<char>>,
    region: Option<Seq<char>>,
)
    ensures
        language == "nb"@ || language == "nn"@ || language == "no"@ ==> special(
            (language, script, region),
        ) == Some("nb"@),
        special(("pt"@, script, Some("BR"@))) == Some("pt-BR"@),
        region != Some("BR"@) ==> special(("pt"@, script, region)) == Some("pt-PT"@),
        special(("zh"@, Some("Hans"@), region)) == Some("zh-CN"@),
        script != Some("Hans"@) && (region == Some("HK"@) || region == Some("MO"@)) ==> special(
            ("zh"@, script, region),
        ) == Some("zh-HK"@),
        script != Some("Hans"@) && region == Some("TW"@) ==> special(("zh"@, script, region))
            == Some("zh-TW"@),
        script == Some("Hant"@) && region != Some("HK"@) && region != Some("MO"@) ==> special(
            ("zh"@, script, region),
        ) == Some("zh-TW"@),
        script != Some("Hant"@) && region != Some("HK"@) && region != Some("MO"@) && region != Some(
            "TW"@,
        ) ==> special(("zh"@, script, region)) == Some("zh-CN"@),
        language != "nb"@ && language != "nn"@ && language != "no"@ && language != "pt"@
            && language != "zh"@ ==> special((language, script, region)) is None,
{
    reveal_strlit("nb");
    reveal_strlit("nn");
    reveal_strlit("no");
    reveal_strlit("pt");
    reveal_strlit("zh");
    reveal_strlit("HK");
    reveal_strlit("MO");
    reveal_strlit("TW");
    reveal_strlit("BR");
    reveal_strlit("Hans");
    reveal_strlit("Hant");
    assert("pt"@[0] == 'p' && "zh"@[0] == 'z' && "nb"@[0] == 'n' && "nn"@[0] == 'n' && "no"@[0]
        == 'n');
    assert("TW"@[0] == 'T' && "HK"@[0] == 'H' && "MO"@[0] == 'M');
    assert("Hans"@[3] == 's' && "Hant"@[3] == 't');
}

/// Which locale is chosen: a language's own way where it has one, and otherwise what was
/// negotiated, where that is shipped; without a readable code none.
pub proof fn law_locale_is_chosen(tag: TagModel, found: Seq<char>, code: Seq<char>)
    ensures
        chosen_locale(None, Some(found)) is None,
        chosen_locale(None, None) is None,
        special(tag) == Some(code) ==> chosen_locale(Some(tag), Some(found)) == Some(code),
        special(tag) is None && supported_codes().contains(found) ==> chosen_locale(
            Some(tag),
            Some(found),
        ) == Some(found),
        special(tag) is None && !supported_codes().contains(found) ==> chosen_locale(
            Some(tag),
            Some(found),
        ) is None,
        special(tag) is None ==> chosen_locale(Some(tag), None) is None,
        matched(code) == chosen_locale(
            parsed_tag(hyphenated(code)),
            negotiated(hyphenated(code), supported_codes()),
        ),
{
}

/// Which locale is used: that of the setting where it has one, else that of the system,
/// else English.
pub proof fn law_setting_then_system_then_english(
    setting: Seq<char>,
    system: Seq<char>,
    code: Seq<char>,
    given: Option<Seq<char>>,
)
    ensures
        matched(setting) == Some(code) ==> resolved(Some(setting), given) == code,
        matched(setting) is None && matched(system) == Some(code) ==> resolved(
            Some(setting),
            Some(system),
        ) == code,
        matched(system) == Some(code) ==> resolved(None, Some(system)) == code,
        matched(setting) is None && matched(system) is None ==> resolved(
            Some(setting),
            Some(system),
        ) == "en"@,
        matched(system) is None ==> resolved(None, Some(system)) == "en"@,
        matched(setting) is None ==> resolved(Some(setting), None) == "en"@,
        resolved(None, None) == "en"@,
{
}

/// The codes of the shipped locales.
pub proof fn law_shipped_locales()
    ensures
        supported_codes() == seq![
            "da"@,
            "de"@,
            "en"@,
            "es"@,
            "fr"@,
            "it"@,
            "nl"@,
            "nb"@,
            "pl"@,
            "pt-PT"@,
            "pt-BR"@,
            "fi"@,
            "sv"@,
            "el"@,
            "ru"@,
            "ja"@,
            "zh-CN"@,
            "zh-HK"@,
            "zh-TW"@,
            "ko"@,
        ],
{
}

} // verus!
