//! The synthesis-voice catalog.
//!
//! At startup the provider's voice listing is reduced to the catalog the bot
//! works with: only voices whose name carries the high-quality mark are kept,
//! and each is recorded once per language code it speaks. The catalog is
//! read-only afterwards; `say` filters it by language and gender, and
//! `languages` lists the distinct language codes.

use vstd::prelude::*;
use crate::text::{seq_contains_sub, str_contains, str_eq, str_eq_string};

verus! {

/// One catalog voice: its provider name and its reported gender.
pub struct VoiceInfo {
    pub name: String,
    pub ssml_gender: String,
}

/// Abstract value of a [`VoiceInfo`].
#[verifier::ext_equal]
pub struct VoiceInfoView {
    pub name: Seq<char>,
    pub ssml_gender: Seq<char>,
}

impl View for VoiceInfo {
    type V = VoiceInfoView;

    closed spec fn view(&self) -> VoiceInfoView {
        VoiceInfoView { name: self.name@, ssml_gender: self.ssml_gender@ }
    }
}

/// One voice as the provider lists it: every field may be missing.
pub struct RawVoice {
    pub name: Option<String>,
    pub language_codes: Vec<String>,
    pub ssml_gender: Option<String>,
}

/// Abstract value of a [`RawVoice`].
#[verifier::ext_equal]
pub struct RawVoiceView {
    pub name: Option<Seq<char>>,
    pub language_codes: Seq<Seq<char>>,
    pub ssml_gender: Option<Seq<char>>,
}

/// The views of a sequence of owned strings.
pub open spec fn string_views(s: Seq<String>) -> Seq<Seq<char>> {
    s.map_values(|x: String| x@)
}

impl View for RawVoice {
    type V = RawVoiceView;

    closed spec fn view(&self) -> RawVoiceView {
        RawVoiceView {
            name: (match self.name {
                Some(s) => Some(s@),
                None => None,
            }),
            language_codes: string_views(self.language_codes@),
            ssml_gender: (match self.ssml_gender {
                Some(s) => Some(s@),
                None => None,
            }),
        }
    }
}

/// The views of a sequence of listed voices.
pub open spec fn raw_voice_views(s: Seq<RawVoice>) -> Seq<RawVoiceView> {
    s.map_values(|r: RawVoice| r@)
}

/// The abstract catalog a sequence of keyed voice records denotes.
pub open spec fn catalog_view(s: Seq<(String, VoiceInfo)>) -> Seq<(Seq<char>, VoiceInfoView)> {
    s.map_values(|e: (String, VoiceInfo)| (e.0@, e.1@))
}

/// The substring that marks the voices the catalog keeps.
pub open spec fn wavenet_mark() -> Seq<char> {
    "Wavenet"@
}

/// The catalog entry a listed voice yields, if it is kept: a voice without a
/// name, or whose name lacks the mark, is dropped; a missing gender is
/// recorded as the empty string.
pub open spec fn voice_entry(r: RawVoiceView) -> Option<VoiceInfoView> {
    match r.name {
        Some(n) => if seq_contains_sub(n, wavenet_mark()) {
            Some(
                VoiceInfoView {
                    name: n,
                    ssml_gender: (match r.ssml_gender {
                        Some(g) => g,
                        None => Seq::empty(),
                    }),
                },
            )
        } else {
            None
        },
        None => None,
    }
}

/// The catalog pairs one listed voice contributes: one per language code it
/// names, in their listed order.
pub open spec fn lang_pairs_of(r: RawVoiceView) -> Seq<(Seq<char>, VoiceInfoView)> {
    match voice_entry(r) {
        Some(v) => r.language_codes.map_values(|c: Seq<char>| (c, v)),
        None => Seq::empty(),
    }
}

/// The whole catalog a voice listing yields, in listing order.
pub open spec fn wavenet_pairs(raw: Seq<RawVoiceView>) -> Seq<(Seq<char>, VoiceInfoView)>
    decreases raw.len(),
{
    if raw.len() == 0 {
        Seq::empty()
    } else {
        wavenet_pairs(raw.drop_last()) + lang_pairs_of(raw.last())
    }
}

/// Whether a voice's gender passes the optional filter.
pub open spec fn gender_matches(filter: Option<Seq<char>>, gender: Seq<char>) -> bool {
    match filter {
        Some(f) => f == gender,
        None => true,
    }
}

/// The names of the catalog voices for the given language that pass the
/// gender filter, in catalog order.
pub open spec fn spec_matching_voices(
    cat: Seq<(Seq<char>, VoiceInfoView)>,
    language: Seq<char>,
    gender: Option<Seq<char>>,
) -> Seq<Seq<char>>
    decreases cat.len(),
{
    if cat.len() == 0 {
        Seq::empty()
    } else {
        let prefix = spec_matching_voices(cat.drop_last(), language, gender);
        if cat.last().0 == language && gender_matches(gender, cat.last().1.ssml_gender) {
            prefix.push(cat.last().1.name)
        } else {
            prefix
        }
    }
}

/// The distinct language codes of the catalog, in order of first appearance.
pub open spec fn spec_distinct_keys(cat: Seq<(Seq<char>, VoiceInfoView)>) -> Seq<Seq<char>>
    decreases cat.len(),
{
    if cat.len() == 0 {
        Seq::empty()
    } else {
        let prefix = spec_distinct_keys(cat.drop_last());
        if prefix.contains(cat.last().0) {
            prefix
        } else {
            prefix.push(cat.last().0)
        }
    }
}

/// The view of an optional owned string.
pub open spec fn opt_str_view(o: Option<String>) -> Option<Seq<char>> {
    match o {
        Some(s) => Some(s@),
        None => None,
    }
}

/// The read-only voice catalog: one entry per (language code, voice) pair.
pub struct Voices {
    entries: Vec<(String, VoiceInfo)>,
}

impl View for Voices {
    type V = Seq<(Seq<char>, VoiceInfoView)>;

    closed spec fn view(&self) -> Seq<(Seq<char>, VoiceInfoView)> {
        catalog_view(self.entries@)
    }
}

impl Voices {
    /// An empty catalog.
    pub fn new() -> (v: Voices)
        ensures
            v@ == Seq::<(Seq<char>, VoiceInfoView)>::empty(),
    {
        let v = Voices { entries: Vec::new() };
        proof {
            assert(v@ =~= Seq::<(Seq<char>, VoiceInfoView)>::empty());
        }
        v
    }

    /// Builds the catalog from the provider's voice listing: marked voices
    /// only, one entry per language code each names.
    pub fn from_listing(raw: &Vec<RawVoice>) -> (v: Voices)
        ensures
            v@ == wavenet_pairs(raw_voice_views(raw@)),
    {
        let ghost raw_views = raw_voice_views(raw@);
        let mut entries: Vec<(String, VoiceInfo)> = Vec::new();
        proof {
            assert(catalog_view(entries@) =~= wavenet_pairs(raw_views.take(0)));
        }
        let n = raw.len();
        let mut i: usize = 0;
        while i < n
            invariant
                i <= n,
                n == raw@.len(),
                raw_views == raw_voice_views(raw@),
                catalog_view(entries@) == wavenet_pairs(raw_views.take(i as int)),
            decreases n - i,
        {
            let keep = match &raw[i].name {
                Some(name) => str_contains(name.as_str(), "Wavenet"),
                None => false,
            };
            proof {
                assert(raw_views.take(i + 1).drop_last() =~= raw_views.take(i as int));
                assert(raw_views.take(i + 1).last() == raw@[i as int]@);
            }
            if keep {
                let name = match &raw[i].name {
                    Some(name) => name.clone(),
                    None => String::new(),
                };
                let gender = match &raw[i].ssml_gender {
                    Some(g) => g.clone(),
                    None => String::new(),
                };
                let ghost entry = voice_entry(raw@[i as int]@);
                proof {
                    assert(entry matches Some(e) && e.name == name@ && e.ssml_gender == gender@);
                }
                let m = raw[i].language_codes.len();
                let mut j: usize = 0;
                while j < m
                    invariant
                        j <= m,
                        i < raw@.len(),
                        m == raw@[i as int].language_codes@.len(),
                        entry == voice_entry(raw@[i as int]@),
                        entry matches Some(e) && e.name == name@ && e.ssml_gender == gender@,
                        catalog_view(entries@) == wavenet_pairs(raw_views.take(i as int))
                            + lang_pairs_of(raw@[i as int]@).take(j as int),
                        raw_views == raw_voice_views(raw@),
                    decreases m - j,
                {
                    let code = raw[i].language_codes[j].clone();
                    let voice = VoiceInfo { name: name.clone(), ssml_gender: gender.clone() };
                    let ghost prev = entries@;
                    entries.push((code, voice));
                    proof {
                        let pairs = lang_pairs_of(raw@[i as int]@);
                        let whole = wavenet_pairs(raw_views.take(i as int)) + pairs.take(j + 1);
                        assert(raw@[i as int]@.language_codes[j as int] == code@);
                        assert(pairs[j as int] == (code@, entry->0));
                        assert(pairs.len() == m);
                        assert(catalog_view(prev).len() == wavenet_pairs(
                            raw_views.take(i as int),
                        ).len() + j);
                        assert(catalog_view(entries@).len() == whole.len());
                        assert forall|t: int| 0 <= t < whole.len() implies catalog_view(entries@)[t]
                            == whole[t] by {
                            if t < whole.len() - 1 {
                                assert(catalog_view(entries@)[t] == catalog_view(prev)[t]);
                                assert(catalog_view(prev)[t] == (wavenet_pairs(
                                    raw_views.take(i as int),
                                ) + pairs.take(j as int))[t]);
                            } else {
                                assert(catalog_view(entries@)[t] == (code@, voice@));
                            }
                        }
                        assert(catalog_view(entries@) =~= whole);
                    }
                    j = j + 1;
                }
                proof {
                    let pairs = lang_pairs_of(raw@[i as int]@);
                    assert(pairs.take(m as int) =~= pairs);
                    assert(wavenet_pairs(raw_views.take(i as int)) + pairs == wavenet_pairs(
                        raw_views.take(i + 1),
                    ));
                }
            } else {
                proof {
                    assert(voice_entry(raw@[i as int]@) is None);
                    assert(wavenet_pairs(raw_views.take(i as int)) + lang_pairs_of(raw@[i as int]@)
                        =~= wavenet_pairs(raw_views.take(i as int)));
                }
            }
            i = i + 1;
        }
        proof {
            assert(raw_views.take(n as int) =~= raw_views);
        }
        Voices { entries }
    }

    /// The names of the voices for the given language that pass the gender
    /// filter, in catalog order.
    pub fn matching_voice_names(&self, language: &str, gender: &Option<String>) -> (names: Vec<
        String,
    >)
        ensures
            string_views(names@) == spec_matching_voices(self@, language@, opt_str_view(*gender)),
    {
        let mut names: Vec<String> = Vec::new();
        proof {
            assert(string_views(names@) =~= spec_matching_voices(
                self@.take(0),
                language@,
                opt_str_view(*gender),
            ));
        }
        let n = self.entries.len();
        let mut i: usize = 0;
        while i < n
            invariant
                i <= n,
                n == self.entries@.len(),
                self@ == catalog_view(self.entries@),
                string_views(names@) == spec_matching_voices(
                    self@.take(i as int),
                    language@,
                    opt_str_view(*gender),
                ),
            decreases n - i,
        {
            proof {
                assert(self@.take(i + 1).drop_last() =~= self@.take(i as int));
                assert(self@.take(i + 1).last() == self@[i as int]);
                assert(self@[i as int] == (self.entries@[i as int].0@, self.entries@[i as int].1@));
            }
            let lang_ok = str_eq_string(language, &self.entries[i].0);
            let gender_ok = match gender {
                Some(g) => str_eq(g.as_str(), self.entries[i].1.ssml_gender.as_str()),
                None => true,
            };
            if lang_ok && gender_ok {
                names.push(self.entries[i].1.name.clone());
                proof {
                    assert(string_views(names@) =~= spec_matching_voices(
                        self@.take(i + 1),
                        language@,
                        opt_str_view(*gender),
                    ));
                }
            }
            i = i + 1;
        }
        proof {
            assert(self@.take(n as int) =~= self@);
        }
        names
    }

    /// The distinct language codes of the catalog, in order of first
    /// appearance.
    pub fn languages(&self) -> (langs: Vec<String>)
        ensures
            string_views(langs@) == spec_distinct_keys(self@),
    {
        let mut langs: Vec<String> = Vec::new();
        proof {
            assert(string_views(langs@) =~= spec_distinct_keys(self@.take(0)));
        }
        let n = self.entries.len();
        let mut i: usize = 0;
        while i < n
            invariant
                i <= n,
                n == self.entries@.len(),
                self@ == catalog_view(self.entries@),
                string_views(langs@) == spec_distinct_keys(self@.take(i as int)),
            decreases n - i,
        {
            proof {
                assert(self@.take(i + 1).drop_last() =~= self@.take(i as int));
                assert(self@.take(i + 1).last() == self@[i as int]);
                assert(self@[i as int] == (self.entries@[i as int].0@, self.entries@[i as int].1@));
            }
            let already = vec_contains_string(&langs, &self.entries[i].0);
            if !already {
                langs.push(self.entries[i].0.clone());
                proof {
                    assert(string_views(langs@) =~= spec_distinct_keys(self@.take(i + 1)));
                }
            }
            i = i + 1;
        }
        proof {
            assert(self@.take(n as int) =~= self@);
        }
        langs
    }
}

/// Whether the vector holds a string with the same characters.
fn vec_contains_string(v: &Vec<String>, s: &String) -> (r: bool)
    ensures
        r == string_views(v@).contains(s@),
{
    let n = v.len();
    let mut i: usize = 0;
    while i < n
        invariant
            i <= n,
            n == v@.len(),
            forall|j: int| 0 <= j < i ==> string_views(v@)[j] != s@,
        decreases n - i,
    {
        if v[i] == *s {
            proof {
                assert(string_views(v@)[i as int] == s@);
            }
            return true;
        }
        i = i + 1;
    }
    proof {
        assert(!string_views(v@).contains(s@)) by {
            if string_views(v@).contains(s@) {
                let k = choose|k: int|
                    0 <= k < string_views(v@).len() && string_views(v@)[k] == s@;
            }
        }
    }
    false
}

} // verus!
