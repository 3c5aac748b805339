//! Format names and the closed set of formats they stand for.

use vstd::prelude::*;
use vstd::string::*;

verus! {

/// A container format an image can be written in.
#[derive(Clone, Copy, Debug, PartialEq, Eq, Structural)]
pub enum OutputFormat {
    Png,
    Jpeg,
    WebP,
    Bmp,
    Gif,
}

/// A recognised format name. `Jpg` and `Jpeg` are two names of one format.
#[derive(Clone, Copy, Debug, PartialEq, Eq, Structural)]
pub enum FormatName {
    Png,
    Jpg,
    Jpeg,
    Webp,
    Bmp,
    Gif,
}

/// What the leading bytes of a payload look like.
#[derive(Clone, Copy, Debug, PartialEq, Eq, Structural)]
pub enum DetectedFormat {
    Png,
    Jpeg,
    WebP,
    Gif,
    Bmp,
    /// A container that is recognised and has no name among the reported ones.
    Other,
    /// No container that is recognised.
    Unknown,
}

/// The lower-case form of an ASCII capital; every other character is itself.
pub open spec fn ascii_lower(c: char) -> char {
    if 'A' <= c && c <= 'Z' {
        ((c as u8) + 32) as char
    } else {
        c
    }
}

/// `text` with each ASCII capital replaced by its lower-case form.
pub open spec fn ascii_lowercase(text: Seq<char>) -> Seq<char> {
    Seq::new(text.len(), |i: int| ascii_lower(text[i]))
}

impl FormatName {
    /// The name in lower case.
    pub open spec fn text(self) -> Seq<char> {
        match self {
            FormatName::Png => seq!['p', 'n', 'g'],
            FormatName::Jpg => seq!['j', 'p', 'g'],
            FormatName::Jpeg => seq!['j', 'p', 'e', 'g'],
            FormatName::Webp => seq!['w', 'e', 'b', 'p'],
            FormatName::Bmp => seq!['b', 'm', 'p'],
            FormatName::Gif => seq!['g', 'i', 'f'],
        }
    }

    /// The format the name stands for.
    pub open spec fn format_of(self) -> OutputFormat {
        match self {
            FormatName::Png => OutputFormat::Png,
            FormatName::Jpg => OutputFormat::Jpeg,
            FormatName::Jpeg => OutputFormat::Jpeg,
            FormatName::Webp => OutputFormat::WebP,
            FormatName::Bmp => OutputFormat::Bmp,
            FormatName::Gif => OutputFormat::Gif,
        }
    }

    /// The name that `text` spells when case is ignored, if any.
    pub open spec fn recognized(text: Seq<char>) -> Option<FormatName> {
        let lower = ascii_lowercase(text);
        if lower == FormatName::Png.text() {
            Some(FormatName::Png)
        } else if lower == FormatName::Jpg.text() {
            Some(FormatName::Jpg)
        } else if lower == FormatName::Jpeg.text() {
            Some(FormatName::Jpeg)
        } else if lower == FormatName::Webp.text() {
            Some(FormatName::Webp)
        } else if lower == FormatName::Bmp.text() {
            Some(FormatName::Bmp)
        } else if lower == FormatName::Gif.text() {
            Some(FormatName::Gif)
        } else {
            None
        }
    }

    /// Reads a format name, ignoring the case of ASCII letters.
    pub fn parse(text: &str) -> (name: Option<FormatName>)
        ensures
            name == FormatName::recognized(text@),
    {
        let len = text.unicode_len();
        if len != 3 && len != 4 {
            assert(ascii_lowercase(text@).len() == len);
            assert(forall|name: FormatName| 3 <= #[trigger] name.text().len() <= 4);
            return None;
        }
        let a = lower_char(text.get_char(0));
        let b = lower_char(text.get_char(1));
        let c = lower_char(text.get_char(2));
        let ghost lower = ascii_lowercase(text@);
        if len == 3 {
            assert(lower =~= seq![a, b, c]);
            if a == 'p' && b == 'n' && c == 'g' {
                Some(FormatName::Png)
            } else if a == 'j' && b == 'p' && c == 'g' {
                Some(FormatName::Jpg)
            } else if a == 'b' && b == 'm' && c == 'p' {
                Some(FormatName::Bmp)
            } else if a == 'g' && b == 'i' && c == 'f' {
                Some(FormatName::Gif)
            } else {
                None
            }
        } else {
            let d = lower_char(text.get_char(3));
            assert(lower =~= seq![a, b, c, d]);
            if a == 'j' && b == 'p' && c == 'e' && d == 'g' {
                Some(FormatName::Jpeg)
            } else if a == 'w' && b == 'e' && c == 'b' && d == 'p' {
                Some(FormatName::Webp)
            } else {
                None
            }
        }
    }

    /// The format the name stands for.
    pub fn format(self) -> (format: OutputFormat)
        ensures
            format == self.format_of(),
    {
        match self {
            FormatName::Png => OutputFormat::Png,
            FormatName::Jpg => OutputFormat::Jpeg,
            FormatName::Jpeg => OutputFormat::Jpeg,
            FormatName::Webp => OutputFormat::WebP,
            FormatName::Bmp => OutputFormat::Bmp,
            FormatName::Gif => OutputFormat::Gif,
        }
    }

    /// The name in lower case, as it is reported in results.
    pub fn to_text(self) -> (text: String)
        ensures
            text@ == self.text(),
    {
        proof {
            reveal_strlit("png");
            reveal_strlit("jpg");
            reveal_strlit("jpeg");
            reveal_strlit("webp");
            reveal_strlit("bmp");
            reveal_strlit("gif");
        }
        let text = match self {
            FormatName::Png => "png".to_owned(),
            FormatName::Jpg => "jpg".to_owned(),
            FormatName::Jpeg => "jpeg".to_owned(),
            FormatName::Webp => "webp".to_owned(),
            FormatName::Bmp => "bmp".to_owned(),
            FormatName::Gif => "gif".to_owned(),
        };
        assert(text@ =~= self.text());
        text
    }
}

impl DetectedFormat {
    /// The reported name of the detected format; a format outside the five
    /// reported ones, and none at all, are both "unknown".
    pub open spec fn text(self) -> Seq<char> {
        match self {
            DetectedFormat::Png => seq!['p', 'n', 'g'],
            DetectedFormat::Jpeg => seq!['j', 'p', 'g'],
            DetectedFormat::WebP => seq!['w', 'e', 'b', 'p'],
            DetectedFormat::Gif => seq!['g', 'i', 'f'],
            DetectedFormat::Bmp => seq!['b', 'm', 'p'],
            DetectedFormat::Other => seq!['u', 'n', 'k', 'n', 'o', 'w', 'n'],
            DetectedFormat::Unknown => seq!['u', 'n', 'k', 'n', 'o', 'w', 'n'],
        }
    }

    /// The reported name of the detected format.
    pub fn to_text(self) -> (text: String)
        ensures
            text@ == self.text(),
    {
        proof {
            reveal_strlit("png");
            reveal_strlit("jpg");
            reveal_strlit("webp");
            reveal_strlit("gif");
            reveal_strlit("bmp");
            reveal_strlit("unknown");
        }
        let text = match self {
            DetectedFormat::Png => "png".to_owned(),
            DetectedFormat::Jpeg => "jpg".to_owned(),
            DetectedFormat::WebP => "webp".to_owned(),
            DetectedFormat::Gif => "gif".to_owned(),
            DetectedFormat::Bmp => "bmp".to_owned(),
            DetectedFormat::Other => "unknown".to_owned(),
            DetectedFormat::Unknown => "unknown".to_owned(),
        };
        assert(text@ =~= self.text());
        text
    }
}

/// The lower-case form of an ASCII capital; every other character is itself.
pub fn lower_char(c: char) -> (lowered: char)
    ensures
        lowered == ascii_lower(c),
{
    if 'A' <= c && c <= 'Z' {
        ((c as u8) + 32) as char
    } else {
        c
    }
}

/// Two texts with the same lower-case form are read as the same name.
pub proof fn lemma_name_matching_ignores_case(a: Seq<char>, b: Seq<char>)
    requires
        ascii_lowercase(a) == ascii_lowercase(b),
    ensures
        FormatName::recognized(a) == FormatName::recognized(b),
{
}

/// A recognised text spells its name: lowering it gives the name's text.
pub proof fn lemma_recognized_spells_name(text: Seq<char>)
    ensures
        FormatName::recognized(text) matches Some(name) ==> ascii_lowercase(text) == name.text(),
{
}

} // verus!
