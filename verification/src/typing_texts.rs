//! The built-in practice texts for the typing trainer, per language and
//! difficulty, and the pick of one arbitrary sample text.

use vstd::prelude::*;
use crate::types::Language;
use crate::clock::now_millis;

verus! {

/// The fixed sample texts for each language.
pub open spec fn sample_texts(l: Language) -> Seq<Seq<char>> {
    match l {
        Language::Japanese => seq![
            "konnichiwa sekai"@,
            "watashi no namae wa tanaka desu"@,
            "kyou wa ii tenki desu ne"@,
            "nihongo wo benkyou shite imasu"@,
            "arigato gozaimasu"@,
            "sumimasen chotto matte kudasai"@,
            "eigo to nihongo wo hanashimasu"@,
            "ashita wa yasumi desu"@,
            "takusan tabete takusan nete takusan asobu"@,
            "pasokon de shigoto wo shite imasu"@,
        ],
        Language::English => seq![
            "hello world"@,
            "the quick brown fox jumps over the lazy dog"@,
            "programming is fun and challenging"@,
            "practice makes perfect"@,
            "typing speed and accuracy are important"@,
            "learning new skills takes time and patience"@,
            "technology changes rapidly in modern times"@,
            "communication skills are valuable in any career"@,
            "reading books expands your knowledge and vocabulary"@,
            "staying healthy requires exercise and good nutrition"@,
        ],
    }
}

/// The fixed beginner texts for each language.
pub open spec fn beginner_texts(l: Language) -> Seq<Seq<char>> {
    match l {
        Language::Japanese => seq![
            "aaa"@,
            "abc"@,
            "aiueo"@,
            "hello"@,
            "arigatou"@,
        ],
        Language::English => seq![
            "aaa"@,
            "abc"@,
            "cat"@,
            "dog"@,
            "hello"@,
        ],
    }
}

/// The fixed intermediate texts for each language.
pub open spec fn intermediate_texts(l: Language) -> Seq<Seq<char>> {
    match l {
        Language::Japanese => seq![
            "ohayou gozaimasu"@,
            "genki desu ka"@,
            "sumimasen"@,
            "douzo yoroshiku"@,
            "mata ashita"@,
        ],
        Language::English => seq![
            "good morning"@,
            "how are you"@,
            "nice to meet you"@,
            "see you tomorrow"@,
            "have a great day"@,
        ],
    }
}

/// The fixed advanced texts for each language.
pub open spec fn advanced_texts(l: Language) -> Seq<Seq<char>> {
    match l {
        Language::Japanese => seq![
            "watakushi wa nihon no bunka ni kyoumi ga arimasu"@,
            "gijutsu no shinpo wa ningen no seikatsu wo kaete imasu"@,
            "kyouiku wa mirai no shakai wo tsukuru tame ni taisetsu desu"@,
            "kokusai kankei wa fukuzatsu de muzukashii mondai desu"@,
            "kankyou mondai wa chikyuu zentai no kadai to natte imasu"@,
        ],
        Language::English => seq![
            "artificial intelligence is transforming various industries"@,
            "sustainable development requires global cooperation and commitment"@,
            "digital transformation has accelerated due to recent events"@,
            "climate change poses significant challenges for future generations"@,
            "effective communication bridges cultural and linguistic differences"@,
        ],
    }
}

pub struct TypingTexts;

impl TypingTexts {
    /// The fixed sample texts for `language`, in order.
    pub fn get_sample_texts(language: &Language) -> (r: Vec<String>)
        ensures
            r.deep_view() == sample_texts(*language),
            r@.len() == sample_texts(*language).len(),
    {
        let mut r: Vec<String> = Vec::new();
        match language {
            Language::Japanese => {
                r.push("konnichiwa sekai".to_owned());
                r.push("watashi no namae wa tanaka desu".to_owned());
                r.push("kyou wa ii tenki desu ne".to_owned());
                r.push("nihongo wo benkyou shite imasu".to_owned());
                r.push("arigato gozaimasu".to_owned());
                r.push("sumimasen chotto matte kudasai".to_owned());
                r.push("eigo to nihongo wo hanashimasu".to_owned());
                r.push("ashita wa yasumi desu".to_owned());
                r.push("takusan tabete takusan nete takusan asobu".to_owned());
                r.push("pasokon de shigoto wo shite imasu".to_owned());
            },
            Language::English => {
                r.push("hello world".to_owned());
                r.push("the quick brown fox jumps over the lazy dog".to_owned());
                r.push("programming is fun and challenging".to_owned());
                r.push("practice makes perfect".to_owned());
                r.push("typing speed and accuracy are important".to_owned());
                r.push("learning new skills takes time and patience".to_owned());
                r.push("technology changes rapidly in modern times".to_owned());
                r.push("communication skills are valuable in any career".to_owned());
                r.push("reading books expands your knowledge and vocabulary".to_owned());
                r.push("staying healthy requires exercise and good nutrition".to_owned());
            },
        }
        proof {
            assert(r.deep_view() =~~= sample_texts(*language));
        }
        r
    }

    /// The fixed beginner texts for `language`, in order.
    pub fn get_beginner_texts(language: &Language) -> (r: Vec<String>)
        ensures
            r.deep_view() == beginner_texts(*language),
            r@.len() == beginner_texts(*language).len(),
    {
        let mut r: Vec<String> = Vec::new();
        match language {
            Language::Japanese => {
                r.push("aaa".to_owned());
                r.push("abc".to_owned());
                r.push("aiueo".to_owned());
                r.push("hello".to_owned());
                r.push("arigatou".to_owned());
            },
            Language::English => {
                r.push("aaa".to_owned());
                r.push("abc".to_owned());
                r.push("cat".to_owned());
                r.push("dog".to_owned());
                r.push("hello".to_owned());
            },
        }
        proof {
            assert(r.deep_view() =~~= beginner_texts(*language));
        }
        r
    }

    /// The fixed intermediate texts for `language`, in order.
    pub fn get_intermediate_texts(language: &Language) -> (r: Vec<String>)
        ensures
            r.deep_view() == intermediate_texts(*language),
            r@.len() == intermediate_texts(*language).len(),
    {
        let mut r: Vec<String> = Vec::new();
        match language {
            Language::Japanese => {
                r.push("ohayou gozaimasu".to_owned());
                r.push("genki desu ka".to_owned());
                r.push("sumimasen".to_owned());
                r.push("douzo yoroshiku".to_owned());
                r.push("mata ashita".to_owned());
            },
            Language::English => {
                r.push("good morning".to_owned());
                r.push("how are you".to_owned());
                r.push("nice to meet you".to_owned());
                r.push("see you tomorrow".to_owned());
                r.push("have a great day".to_owned());
            },
        }
        proof {
            assert(r.deep_view() =~~= intermediate_texts(*language));
        }
        r
    }

    /// The fixed advanced texts for `language`, in order.
    pub fn get_advanced_texts(language: &Language) -> (r: Vec<String>)
        ensures
            r.deep_view() == advanced_texts(*language),
            r@.len() == advanced_texts(*language).len(),
    {
        let mut r: Vec<String> = Vec::new();
        match language {
            Language::Japanese => {
                r.push("watakushi wa nihon no bunka ni kyoumi ga arimasu".to_owned());
                r.push("gijutsu no shinpo wa ningen no seikatsu wo kaete imasu".to_owned());
                r.push("kyouiku wa mirai no shakai wo tsukuru tame ni taisetsu desu".to_owned());
                r.push("kokusai kankei wa fukuzatsu de muzukashii mondai desu".to_owned());
                r.push("kankyou mondai wa chikyuu zentai no kadai to natte imasu".to_owned());
            },
            Language::English => {
                r.push("artificial intelligence is transforming various industries".to_owned());
                r.push("sustainable development requires global cooperation and commitment".to_owned());
                r.push("digital transformation has accelerated due to recent events".to_owned());
                r.push("climate change poses significant challenges for future generations".to_owned());
                r.push("effective communication bridges cultural and linguistic differences".to_owned());
            },
        }
        proof {
            assert(r.deep_view() =~~= advanced_texts(*language));
        }
        r
    }

    /// One of the sample texts for `language`; which one depends on the
    /// clock, so only membership in the list is promised.
    pub fn get_random_text(language: &Language) -> (r: String)
        ensures
            exists|i: int|
                0 <= i < sample_texts(*language).len() && r@ == sample_texts(*language)[i],
    {
        let texts = Self::get_sample_texts(language);
        let seed = now_millis();
        let index = (seed as usize) % texts.len();
        proof {
            assert(texts.deep_view()[index as int] == texts@[index as int]@);
        }
        texts[index].clone()
    }
}

} // verus!
