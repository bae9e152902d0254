use vstd::prelude::*;
use vstd::string::*;

use crate::record::FileInfo;

verus! {

/// What a `Config` holds: the sources to read, in order, and which counts
/// to show.
pub ghost struct ConfigView {
    pub sources: Seq<Seq<char>>,
    pub show_lines: bool,
    pub show_words: bool,
    pub show_bytes: bool,
    pub show_chars: bool,
}

/// The name that stands for standard input.
pub open spec fn stdin_name() -> Seq<char> {
    seq!['-']
}

/// The resolved configuration for the given sources and flags: no source
/// means standard input alone, and no flag means lines, words and bytes.
pub open spec fn resolved(
    sources: Seq<Seq<char>>,
    lines: bool,
    words: bool,
    bytes: bool,
    chars: bool,
) -> ConfigView {
    let none = !lines && !words && !bytes && !chars;
    ConfigView {
        sources: if sources.len() == 0 { seq![stdin_name()] } else { sources },
        show_lines: lines || none,
        show_words: words || none,
        show_bytes: bytes || none,
        show_chars: chars,
    }
}

/// A resolved configuration names at least one source and shows at least
/// one count.
pub open spec fn config_wf(v: ConfigView) -> bool {
    &&& v.sources.len() > 0
    &&& (v.show_lines || v.show_words || v.show_bytes || v.show_chars)
}

/// The counts of `info` that `v` shows, in the order lines, words, bytes,
/// characters.
pub open spec fn selected_of(v: ConfigView, info: FileInfo) -> Seq<usize> {
    (if v.show_lines { seq![info.num_lines] } else { seq![] })
        + (if v.show_words { seq![info.num_words] } else { seq![] })
        + (if v.show_bytes { seq![info.num_bytes] } else { seq![] })
        + (if v.show_chars { seq![info.num_chars] } else { seq![] })
}

/// The sources to count and the counts to show.
#[derive(Debug)]
pub struct Config {
    files: Vec<String>,
    lines: bool,
    words: bool,
    bytes: bool,
    chars: bool,
}

impl View for Config {
    type V = ConfigView;

    closed spec fn view(&self) -> ConfigView {
        ConfigView {
            sources: self.files.deep_view(),
            show_lines: self.lines,
            show_words: self.words,
            show_bytes: self.bytes,
            show_chars: self.chars,
        }
    }
}

impl Config {
    /// Builds the configuration from the sources and flags as given, with
    /// the defaults of `resolved` applied.
    pub fn new(files: Vec<String>, lines: bool, words: bool, bytes: bool, chars: bool) -> (r:
        Config)
        ensures
            r@ == resolved(files.deep_view(), lines, words, bytes, chars),
            config_wf(r@),
    {
        let files = if files.len() == 0 {
            let mut v: Vec<String> = Vec::new();
            let name = String::from_str("-");
            proof {
                reveal_strlit("-");
                assert(name@ =~= stdin_name());
            }
            v.push(name);
            proof {
                assert(v.deep_view().len() == 1);
                assert(v.deep_view()[0] == v@[0].deep_view());
                assert(v.deep_view() =~= seq![stdin_name()]);
            }
            v
        } else {
            files
        };
        let none = !lines && !words && !bytes && !chars;
        let r = Config {
            files,
            lines: lines || none,
            words: words || none,
            bytes: bytes || none,
            chars,
        };
        r
    }

    /// The sources, in the order they are to be read.
    pub fn files(&self) -> (r: &Vec<String>)
        ensures
            r.deep_view() == self@.sources,
    {
        &self.files
    }

    /// The counts of `info` that this configuration shows, in the order
    /// lines, words, bytes, characters.
    pub fn selected(&self, info: &FileInfo) -> (r: Vec<usize>)
        ensures
            r@ == selected_of(self@, *info),
    {
        let mut r: Vec<usize> = Vec::new();
        if self.lines {
            r.push(info.num_lines);
        }
        if self.words {
            r.push(info.num_words);
        }
        if self.bytes {
            r.push(info.num_bytes);
        }
        if self.chars {
            r.push(info.num_chars);
        }
        proof {
            assert(r@ =~= selected_of(self@, *info));
        }
        r
    }
}

/// With words alone selected, exactly one count is shown: the word count.
pub proof fn lemma_only_words_shows_one(v: ConfigView, info: FileInfo)
    requires
        v.show_words,
        !v.show_lines,
        !v.show_bytes,
        !v.show_chars,
    ensures
        selected_of(v, info) == seq![info.num_words],
{
    assert(selected_of(v, info) =~= seq![info.num_words]);
}

} // verus!
