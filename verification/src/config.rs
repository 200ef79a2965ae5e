//! File locations for the stores the surrounding program reads and writes.
//! The engines themselves never touch storage; these are pure path builders.

use vstd::prelude::*;
use vstd::string::StringExecFns;
use crate::types::{Language, lang_code};
use crate::text::{replace_placeholder, replaced};

verus! {

pub struct Config {
    pub data_dir: String,
    pub default_language: Language,
    pub questions_file_pattern: String,
    pub player_data_file: String,
    pub ranking_file_pattern: String,
}

impl Default for Config {
    fn default() -> (r: Self)
        ensures
            r.data_dir@ == "data"@,
            r.default_language == Language::Japanese,
            r.questions_file_pattern@ == "questions_{}.json"@,
            r.player_data_file@ == "player.json"@,
            r.ranking_file_pattern@ == "ranking_{}.json"@,
    {
        Config {
            data_dir: "data".to_owned(),
            default_language: Language::Japanese,
            questions_file_pattern: "questions_{}.json".to_owned(),
            player_data_file: "player.json".to_owned(),
            ranking_file_pattern: "ranking_{}.json".to_owned(),
        }
    }
}

impl Config {
    /// The question store for `language`: the questions pattern with the
    /// language code filled in, under the data directory.
    pub fn questions_file_path(&self, language: &Language) -> (r: String)
        ensures
            r@ == self.data_dir@ + "/"@ + replaced(
                self.questions_file_pattern@,
                lang_code(*language),
            ),
    {
        let rep = replace_placeholder(self.questions_file_pattern.as_str(), language.code());
        let mut out = self.data_dir.clone();
        out.append("/");
        out.append(rep.as_str());
        out
    }

    /// The player store, under the data directory.
    pub fn player_data_file_path(&self) -> (r: String)
        ensures
            r@ == self.data_dir@ + "/"@ + self.player_data_file@,
    {
        let mut out = self.data_dir.clone();
        out.append("/");
        out.append(self.player_data_file.as_str());
        out
    }

    /// The ranking store for `language`: the ranking pattern with the
    /// language code filled in, under the data directory.
    pub fn ranking_file_path(&self, language: &Language) -> (r: String)
        ensures
            r@ == self.data_dir@ + "/"@ + replaced(
                self.ranking_file_pattern@,
                lang_code(*language),
            ),
    {
        let rep = replace_placeholder(self.ranking_file_pattern.as_str(), language.code());
        let mut out = self.data_dir.clone();
        out.append("/");
        out.append(rep.as_str());
        out
    }
}

} // verus!
