//! The voices on offer and the engine voice that each selects.

use vstd::prelude::*;
use vstd::string::StringExecFns;
use crate::text::same_text;

verus! {

/// A voice on offer: the identifier that requests carry and the name shown.
#[derive(Clone, Debug)]
pub struct Voice {
    pub id: String,
    pub name: String,
}

/// The voices on offer, by language.
#[derive(Clone, Debug)]
pub struct TtsVoices {
    pub en: Vec<Voice>,
    pub es: Vec<Voice>,
}

/// What a voice holds, as mathematical values.
pub struct VoiceModel {
    pub id: Seq<char>,
    pub name: Seq<char>,
}

impl View for Voice {
    type V = VoiceModel;

    open spec fn view(&self) -> VoiceModel {
        VoiceModel { id: self.id@, name: self.name@ }
    }
}

impl DeepView for Voice {
    type V = VoiceModel;

    open spec fn deep_view(&self) -> VoiceModel {
        self@
    }
}

/// The English voices, in the order in which they are offered.
pub open spec fn english_voices() -> Seq<VoiceModel> {
    seq![
        VoiceModel { id: "com.au"@, name: "Australian"@ },
        VoiceModel { id: "co.uk"@, name: "British"@ },
        VoiceModel { id: "us"@, name: "American"@ },
        VoiceModel { id: "ca"@, name: "Canadian"@ },
        VoiceModel { id: "ind"@, name: "Indian"@ },
        VoiceModel { id: "za"@, name: "South African"@ },
        VoiceModel { id: "ie"@, name: "Irish"@ },
        VoiceModel { id: "nz"@, name: "New Zealand"@ },
        VoiceModel { id: "ng"@, name: "Nigerian"@ },
        VoiceModel { id: "tt"@, name: "Trinidad & Tobago"@ },
    ]
}

/// The Spanish voices, in the order in which they are offered.
pub open spec fn spanish_voices() -> Seq<VoiceModel> {
    seq![
        VoiceModel { id: "es"@, name: "Spanish (Spain)"@ },
        VoiceModel { id: "mx"@, name: "Mexican Spanish"@ },
        VoiceModel { id: "ar"@, name: "Argentinian Spanish"@ },
        VoiceModel { id: "cl"@, name: "Chilean Spanish"@ },
    ]
}

/// The engine voice of a regional variant of English, for the variants on
/// offer.
pub open spec fn english_variant_of(voice: Seq<char>) -> Option<Seq<char>> {
    if voice == "com.au"@ {
        Some("en-au"@)
    } else if voice == "co.uk"@ {
        Some("en-gb"@)
    } else if voice == "us"@ {
        Some("en-us"@)
    } else if voice == "ca"@ {
        Some("en-ca"@)
    } else if voice == "ind"@ {
        Some("en-in"@)
    } else if voice == "za"@ {
        Some("en-za"@)
    } else if voice == "ie"@ {
        Some("en-ie"@)
    } else if voice == "nz"@ {
        Some("en-nz"@)
    } else if voice == "ng"@ {
        Some("en-ng"@)
    } else if voice == "tt"@ {
        Some("en-tt"@)
    } else {
        None
    }
}

/// The engine voice of a regional variant of Spanish, for the variants on
/// offer.
pub open spec fn spanish_variant_of(voice: Seq<char>) -> Option<Seq<char>> {
    if voice == "es"@ {
        Some("es"@)
    } else if voice == "mx"@ {
        Some("es-mx"@)
    } else if voice == "ar"@ {
        Some("es-ar"@)
    } else if voice == "cl"@ {
        Some("es-cl"@)
    } else {
        None
    }
}

/// The engine voice of a variant among those of a language: the language
/// `en` has the English variants, `es` the Spanish ones, and any other
/// language has none.
pub open spec fn variant_of(lang: Seq<char>, voice: Seq<char>) -> Option<Seq<char>> {
    if lang == "en"@ {
        english_variant_of(voice)
    } else if lang == "es"@ {
        spanish_variant_of(voice)
    } else {
        None
    }
}

/// The voice of the synthesis engine that a request selects. The language is
/// looked up first and the regional variant among those of that language. A
/// variant that the language does not have selects American English, and so
/// does every variant of a language that is not on offer.
pub open spec fn engine_voice_of(lang: Seq<char>, voice: Seq<char>) -> Seq<char> {
    match variant_of(lang, voice) {
        Some(engine) => engine,
        None => "en-us"@,
    }
}

/// Whether `s` starts with `prefix`.
pub open spec fn starts_with(s: Seq<char>, prefix: Seq<char>) -> bool {
    s.len() >= prefix.len() && s.subrange(0, prefix.len() as int) == prefix
}

proof fn reveal_identifiers()
    ensures
        "en"@ == seq!['e', 'n'],
        "es"@ == seq!['e', 's'],
        "com.au"@ == seq!['c', 'o', 'm', '.', 'a', 'u'],
        "co.uk"@ == seq!['c', 'o', '.', 'u', 'k'],
        "us"@ == seq!['u', 's'],
        "ca"@ == seq!['c', 'a'],
        "ind"@ == seq!['i', 'n', 'd'],
        "za"@ == seq!['z', 'a'],
        "ie"@ == seq!['i', 'e'],
        "nz"@ == seq!['n', 'z'],
        "ng"@ == seq!['n', 'g'],
        "tt"@ == seq!['t', 't'],
        "mx"@ == seq!['m', 'x'],
        "ar"@ == seq!['a', 'r'],
        "cl"@ == seq!['c', 'l'],
{
    reveal_strlit("en");
    reveal_strlit("es");
    reveal_strlit("com.au");
    reveal_strlit("co.uk");
    reveal_strlit("us");
    reveal_strlit("ca");
    reveal_strlit("ind");
    reveal_strlit("za");
    reveal_strlit("ie");
    reveal_strlit("nz");
    reveal_strlit("ng");
    reveal_strlit("tt");
    reveal_strlit("mx");
    reveal_strlit("ar");
    reveal_strlit("cl");
    assert("en"@ =~= seq!['e', 'n']);
    assert("es"@ =~= seq!['e', 's']);
    assert("com.au"@ =~= seq!['c', 'o', 'm', '.', 'a', 'u']);
    assert("co.uk"@ =~= seq!['c', 'o', '.', 'u', 'k']);
    assert("us"@ =~= seq!['u', 's']);
    assert("ca"@ =~= seq!['c', 'a']);
    assert("ind"@ =~= seq!['i', 'n', 'd']);
    assert("za"@ =~= seq!['z', 'a']);
    assert("ie"@ =~= seq!['i', 'e']);
    assert("nz"@ =~= seq!['n', 'z']);
    assert("ng"@ =~= seq!['n', 'g']);
    assert("tt"@ =~= seq!['t', 't']);
    assert("mx"@ =~= seq!['m', 'x']);
    assert("ar"@ =~= seq!['a', 'r']);
    assert("cl"@ =~= seq!['c', 'l']);
}

/// Every voice on offer, asked for under its own language, selects an
/// engine voice of that language: the English ones a regional variant of
/// English, the Spanish ones Spanish or a regional variant of it.
pub proof fn lemma_voices_keep_their_language()
    ensures
        forall|k: int|
            0 <= k < english_voices().len() ==> starts_with(
                engine_voice_of("en"@, #[trigger] english_voices()[k].id),
                "en-"@,
            ),
        forall|k: int|
            0 <= k < spanish_voices().len() ==> starts_with(
                engine_voice_of("es"@, #[trigger] spanish_voices()[k].id),
                "es"@,
            ),
{
    reveal_identifiers();
    reveal_strlit("en-au");
    reveal_strlit("en-gb");
    reveal_strlit("en-us");
    reveal_strlit("en-ca");
    reveal_strlit("en-in");
    reveal_strlit("en-za");
    reveal_strlit("en-ie");
    reveal_strlit("en-nz");
    reveal_strlit("en-ng");
    reveal_strlit("en-tt");
    reveal_strlit("es-mx");
    reveal_strlit("es-ar");
    reveal_strlit("es-cl");
    reveal_strlit("en-");
    assert(!("es"@ =~= "en"@)) by {
        assert("es"@[1] != "en"@[1]);
    }
    assert forall|k: int| 0 <= k < english_voices().len() implies starts_with(
        engine_voice_of("en"@, #[trigger] english_voices()[k].id),
        "en-"@,
    ) by {
        let engine = engine_voice_of("en"@, english_voices()[k].id);
        assert(engine.subrange(0, 3) =~= "en-"@);
    }
    assert forall|k: int| 0 <= k < spanish_voices().len() implies starts_with(
        engine_voice_of("es"@, #[trigger] spanish_voices()[k].id),
        "es"@,
    ) by {
        let engine = engine_voice_of("es"@, spanish_voices()[k].id);
        assert(engine.subrange(0, 2) =~= "es"@);
    }
}

/// A voice asked for under a language that does not have it selects
/// American English: a Spanish voice under English, an English voice under
/// Spanish, and every voice under a language that is not on offer.
pub proof fn lemma_foreign_variants_select_the_default()
    ensures
        forall|k: int|
            0 <= k < spanish_voices().len() ==> engine_voice_of(
                "en"@,
                #[trigger] spanish_voices()[k].id,
            ) == "en-us"@,
        forall|k: int|
            0 <= k < english_voices().len() ==> engine_voice_of(
                "es"@,
                #[trigger] english_voices()[k].id,
            ) == "en-us"@,
        forall|lang: Seq<char>, voice: Seq<char>|
            lang != "en"@ && lang != "es"@ ==> #[trigger] engine_voice_of(lang, voice) == "en-us"@,
{
    reveal_identifiers();
    assert forall|k: int| 0 <= k < spanish_voices().len() implies engine_voice_of(
        "en"@,
        #[trigger] spanish_voices()[k].id,
    ) == "en-us"@ by {
        let id = spanish_voices()[k].id;
        assert(id[0] == 'e' || id[0] == 'm' || id[0] == 'a' || (id[0] == 'c' && id[1] == 'l'));
        assert(english_variant_of(id) is None);
    }
    assert forall|k: int| 0 <= k < english_voices().len() implies engine_voice_of(
        "es"@,
        #[trigger] english_voices()[k].id,
    ) == "en-us"@ by {
        let id = english_voices()[k].id;
        assert(id[0] == 'u' || id[0] == 'i' || id[0] == 'z' || id[0] == 'n' || id[0] == 't' || (
        id[0] == 'c' && (id[1] == 'o' || id[1] == 'a')));
        assert("es"@[1] != "en"@[1]);
        assert(spanish_variant_of(id) is None);
    }
}

fn voice(id: &str, name: &str) -> (out: Voice)
    ensures
        out@ == (VoiceModel { id: id@, name: name@ }),
{
    Voice { id: String::from_str(id), name: String::from_str(name) }
}

/// The voices on offer.
pub fn get_tts_voices() -> (out: TtsVoices)
    ensures
        out.en.deep_view() == english_voices(),
        out.es.deep_view() == spanish_voices(),
{
    let mut en: Vec<Voice> = Vec::new();
    en.push(voice("com.au", "Australian"));
    en.push(voice("co.uk", "British"));
    en.push(voice("us", "American"));
    en.push(voice("ca", "Canadian"));
    en.push(voice("ind", "Indian"));
    en.push(voice("za", "South African"));
    en.push(voice("ie", "Irish"));
    en.push(voice("nz", "New Zealand"));
    en.push(voice("ng", "Nigerian"));
    en.push(voice("tt", "Trinidad & Tobago"));
    let mut es: Vec<Voice> = Vec::new();
    es.push(voice("es", "Spanish (Spain)"));
    es.push(voice("mx", "Mexican Spanish"));
    es.push(voice("ar", "Argentinian Spanish"));
    es.push(voice("cl", "Chilean Spanish"));
    TtsVoices { en, es }
}

/// The engine voice of a regional variant of English, if it is on offer.
pub fn english_variant(voice: &str) -> (out: Option<&'static str>)
    ensures
        out.is_some() == english_variant_of(voice@).is_some(),
        out matches Some(engine) ==> english_variant_of(voice@) == Some(engine@),
{
    if same_text(voice, "com.au") {
        Some("en-au")
    } else if same_text(voice, "co.uk") {
        Some("en-gb")
    } else if same_text(voice, "us") {
        Some("en-us")
    } else if same_text(voice, "ca") {
        Some("en-ca")
    } else if same_text(voice, "ind") {
        Some("en-in")
    } else if same_text(voice, "za") {
        Some("en-za")
    } else if same_text(voice, "ie") {
        Some("en-ie")
    } else if same_text(voice, "nz") {
        Some("en-nz")
    } else if same_text(voice, "ng") {
        Some("en-ng")
    } else if same_text(voice, "tt") {
        Some("en-tt")
    } else {
        None
    }
}

/// The engine voice of a regional variant of Spanish, if it is on offer.
pub fn spanish_variant(voice: &str) -> (out: Option<&'static str>)
    ensures
        out.is_some() == spanish_variant_of(voice@).is_some(),
        out matches Some(engine) ==> spanish_variant_of(voice@) == Some(engine@),
{
    if same_text(voice, "es") {
        Some("es")
    } else if same_text(voice, "mx") {
        Some("es-mx")
    } else if same_text(voice, "ar") {
        Some("es-ar")
    } else if same_text(voice, "cl") {
        Some("es-cl")
    } else {
        None
    }
}

/// The engine voice that the variant `voice` of the language `lang` selects.
pub fn engine_voice(lang: &str, voice: &str) -> (out: &'static str)
    ensures
        out@ == engine_voice_of(lang@, voice@),
{
    let found = if same_text(lang, "en") {
        english_variant(voice)
    } else if same_text(lang, "es") {
        spanish_variant(voice)
    } else {
        None
    };
    match found {
        Some(engine) => engine,
        None => "en-us",
    }
}

} // verus!
