use vstd::prelude::*;

use crate::error::{ErrorView, InfraError};
use crate::text::{joined, text_equal};

verus! {

/// A supported language, named on the wire by a lowercase tag.
#[derive(Clone, Copy, PartialEq, Eq, Structural, Debug)]
pub enum Language {
    Python,
    Javascript,
    Typescript,
    C,
    Cpp,
    Rust,
    Nix,
    Go,
    Zig,
    D,
    Scala,
    Groovy,
    Dart,
    Ruby,
    Lua,
    Julia,
    R,
    Perl,
    Crystal,
    Haskell,
    Brainfuck,
}

/// The text that rejects a tag outside the supported set.
pub open spec fn unsupported_text(tag: Seq<char>) -> Seq<char> {
    tag + " language is not supported"@
}

/// The tag that names a language.
pub open spec fn tag_of(l: Language) -> &'static str {
    match l {
        Language::Python => "python",
        Language::Javascript => "javascript",
        Language::Typescript => "typescript",
        Language::C => "c",
        Language::Cpp => "cpp",
        Language::Rust => "rust",
        Language::Nix => "nix",
        Language::Go => "go",
        Language::Zig => "zig",
        Language::D => "d",
        Language::Scala => "scala",
        Language::Groovy => "groovy",
        Language::Dart => "dart",
        Language::Ruby => "ruby",
        Language::Lua => "lua",
        Language::Julia => "julia",
        Language::R => "r",
        Language::Perl => "perl",
        Language::Crystal => "crystal",
        Language::Haskell => "haskell",
        Language::Brainfuck => "brainfuck",
    }
}

/// The language that a tag names, if it names one.
pub open spec fn language_of(tag: Seq<char>) -> Option<Language> {
    if tag == "python"@ {
        Some(Language::Python)
    } else if tag == "javascript"@ {
        Some(Language::Javascript)
    } else if tag == "typescript"@ {
        Some(Language::Typescript)
    } else if tag == "c"@ {
        Some(Language::C)
    } else if tag == "cpp"@ {
        Some(Language::Cpp)
    } else if tag == "rust"@ {
        Some(Language::Rust)
    } else if tag == "nix"@ {
        Some(Language::Nix)
    } else if tag == "go"@ {
        Some(Language::Go)
    } else if tag == "zig"@ {
        Some(Language::Zig)
    } else if tag == "d"@ {
        Some(Language::D)
    } else if tag == "scala"@ {
        Some(Language::Scala)
    } else if tag == "groovy"@ {
        Some(Language::Groovy)
    } else if tag == "dart"@ {
        Some(Language::Dart)
    } else if tag == "ruby"@ {
        Some(Language::Ruby)
    } else if tag == "lua"@ {
        Some(Language::Lua)
    } else if tag == "julia"@ {
        Some(Language::Julia)
    } else if tag == "r"@ {
        Some(Language::R)
    } else if tag == "perl"@ {
        Some(Language::Perl)
    } else if tag == "crystal"@ {
        Some(Language::Crystal)
    } else if tag == "haskell"@ {
        Some(Language::Haskell)
    } else if tag == "brainfuck"@ {
        Some(Language::Brainfuck)
    } else {
        None
    }
}

impl Language {
    /// Reads a language tag; tags are matched exactly.
    pub fn parse(tag: &str) -> (r: Option<Language>)
        ensures
            r == language_of(tag@),
    {
        if text_equal(tag, "python") {
            Some(Language::Python)
        } else if text_equal(tag, "javascript") {
            Some(Language::Javascript)
        } else if text_equal(tag, "typescript") {
            Some(Language::Typescript)
        } else if text_equal(tag, "c") {
            Some(Language::C)
        } else if text_equal(tag, "cpp") {
            Some(Language::Cpp)
        } else if text_equal(tag, "rust") {
            Some(Language::Rust)
        } else if text_equal(tag, "nix") {
            Some(Language::Nix)
        } else if text_equal(tag, "go") {
            Some(Language::Go)
        } else if text_equal(tag, "zig") {
            Some(Language::Zig)
        } else if text_equal(tag, "d") {
            Some(Language::D)
        } else if text_equal(tag, "scala") {
            Some(Language::Scala)
        } else if text_equal(tag, "groovy") {
            Some(Language::Groovy)
        } else if text_equal(tag, "dart") {
            Some(Language::Dart)
        } else if text_equal(tag, "ruby") {
            Some(Language::Ruby)
        } else if text_equal(tag, "lua") {
            Some(Language::Lua)
        } else if text_equal(tag, "julia") {
            Some(Language::Julia)
        } else if text_equal(tag, "r") {
            Some(Language::R)
        } else if text_equal(tag, "perl") {
            Some(Language::Perl)
        } else if text_equal(tag, "crystal") {
            Some(Language::Crystal)
        } else if text_equal(tag, "haskell") {
            Some(Language::Haskell)
        } else if text_equal(tag, "brainfuck") {
            Some(Language::Brainfuck)
        } else {
            None
        }
    }

    /// Reads a language tag, rejecting one outside the supported set.
    pub fn from_tag(tag: &str) -> (r: Result<Language, InfraError>)
        ensures
            r is Ok <==> language_of(tag@) is Some,
            r matches Ok(l) ==> language_of(tag@) == Some(l),
            r matches Err(e) ==> e@ == ErrorView::UnsupportedLanguage(unsupported_text(tag@)),
    {
        match Language::parse(tag) {
            Some(l) => Ok(l),
            None => Err(InfraError::UnsupportedLanguage(joined(tag, " language is not supported"))),
        }
    }

    /// The tag that names this language.
    pub fn tag(&self) -> (r: &'static str)
        ensures
            r == tag_of(*self),
    {
        match self {
            Language::Python => "python",
            Language::Javascript => "javascript",
            Language::Typescript => "typescript",
            Language::C => "c",
            Language::Cpp => "cpp",
            Language::Rust => "rust",
            Language::Nix => "nix",
            Language::Go => "go",
            Language::Zig => "zig",
            Language::D => "d",
            Language::Scala => "scala",
            Language::Groovy => "groovy",
            Language::Dart => "dart",
            Language::Ruby => "ruby",
            Language::Lua => "lua",
            Language::Julia => "julia",
            Language::R => "r",
            Language::Perl => "perl",
            Language::Crystal => "crystal",
            Language::Haskell => "haskell",
            Language::Brainfuck => "brainfuck",
        }
    }
}

impl std::str::FromStr for Language {
    type Err = InfraError;

    fn from_str(s: &str) -> (r: Result<Language, InfraError>)
        ensures
            r is Ok <==> language_of(s@) is Some,
            r matches Ok(l) ==> language_of(s@) == Some(l),
            r matches Err(e) ==> e@ == ErrorView::UnsupportedLanguage(unsupported_text(s@)),
    {
        Language::from_tag(s)
    }
}

} // verus!
