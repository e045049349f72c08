//! Web-compatible MIME types, guessed from a URI suffix or sniffed from content.
use vstd::prelude::*;

verus! {

/// MIME types that a web view needs to tell apart.
#[derive(Debug, Clone, Copy, PartialEq, Eq, Structural)]
pub enum MimeType {
    CSS,
    CSV,
    HTML,
    ICO,
    JS,
    JSON,
    JSONLD,
    OCTETSTREAM,
    RTF,
    SVG,
}

/// The characters after the last `.` of `uri`, or all of `uri` when it has no `.`.
pub open spec fn suffix_of(uri: Seq<char>) -> Seq<char>
    decreases uri.len(),
{
    if uri.len() == 0 {
        uri
    } else if uri.last() == '.' {
        Seq::empty()
    } else {
        suffix_of(uri.drop_last()).push(uri.last())
    }
}

/// The MIME type that a URI suffix stands for; an unknown suffix is taken for a
/// top-level domain, hence HTML.
pub open spec fn mime_of_suffix(s: Seq<char>) -> MimeType {
    if s == seq!['b', 'i', 'n'] {
        MimeType::OCTETSTREAM
    } else if s == seq!['c', 's', 's'] {
        MimeType::CSS
    } else if s == seq!['c', 's', 'v'] {
        MimeType::CSV
    } else if s == seq!['h', 't', 'm', 'l'] {
        MimeType::HTML
    } else if s == seq!['i', 'c', 'o'] {
        MimeType::ICO
    } else if s == seq!['j', 's'] {
        MimeType::JS
    } else if s == seq!['j', 's', 'o', 'n'] {
        MimeType::JSON
    } else if s == seq!['j', 's', 'o', 'n', 'l', 'd'] {
        MimeType::JSONLD
    } else if s == seq!['r', 't', 'f'] {
        MimeType::RTF
    } else if s == seq!['s', 'v', 'g'] {
        MimeType::SVG
    } else {
        MimeType::HTML
    }
}

/// The MIME type that `parse_from_uri` gives for `uri`.
pub open spec fn mime_of_uri(uri: Seq<char>) -> MimeType {
    mime_of_suffix(suffix_of(uri))
}

/// The text form of a MIME type.
pub open spec fn mime_text(m: MimeType) -> Seq<char> {
    match m {
        MimeType::CSS => "text/css"@,
        MimeType::CSV => "text/csv"@,
        MimeType::HTML => "text/html"@,
        MimeType::ICO => "image/vnd.microsoft.icon"@,
        MimeType::JS => "text/javascript"@,
        MimeType::JSON => "application/json"@,
        MimeType::JSONLD => "application/ld+json"@,
        MimeType::OCTETSTREAM => "application/octet-stream"@,
        MimeType::RTF => "application/rtf"@,
        MimeType::SVG => "image/svg+xml"@,
    }
}

/// What content sniffing reports for `content`: the MIME type of the first
/// known file signature that the bytes carry, if any.
pub uninterp spec fn sniffed_mime(content: Seq<u8>) -> Option<Seq<char>>;

/// The view of an optional string slice.
pub open spec fn opt_text(o: Option<&str>) -> Option<Seq<char>> {
    match o {
        Some(t) => Some(t@),
        None => None,
    }
}

/// The MIME type served for content that sniffing classified as `sniffed` and
/// that was requested under `uri`: the sniffed type, unless sniffing found
/// nothing or only plain text, in which case the URI suffix decides.
pub open spec fn served_mime(sniffed: Option<Seq<char>>, uri: Seq<char>) -> Seq<char> {
    match sniffed {
        Some(m) => if m == "text/plain"@ {
            mime_text(mime_of_uri(uri))
        } else {
            m
        },
        None => mime_text(mime_of_uri(uri)),
    }
}

/// Whether `c` is a ten-byte TIFF header whose bytes 8 and 9 read `CR`: the
/// Canon CR2 matcher reads an eleventh byte of it.
pub open spec fn cr2_header_cut_short(c: Seq<u8>) -> bool {
    &&& c.len() == 10
    &&& (c.subrange(0, 4) == seq![0x49u8, 0x49u8, 0x2Au8, 0x00u8] || c.subrange(0, 4) == seq![
        0x4Du8,
        0x4Du8,
        0x00u8,
        0x2Au8,
    ])
    &&& c[8] == 0x43
    &&& c[9] == 0x52
}

/// The little-endian 32-bit word at `at` in `c`.
pub open spec fn le_word(c: Seq<u8>, at: int) -> int {
    c[at] + 256 * c[at + 1] + 65536 * c[at + 2] + 16777216 * c[at + 3]
}

/// Whether `c` holds `name` at offset `at`.
pub open spec fn holds_at(c: Seq<u8>, at: int, name: Seq<u8>) -> bool {
    at + name.len() <= c.len() && c.subrange(at, at + name.len()) == name
}

/// Whether `c` is a ZIP local header naming an Office Open XML part at offset
/// 30, whose 32-bit word at offset 18 is so large that the Office Open XML
/// matcher overflows: it adds 49 to the word, then, as a `usize`, the 6000
/// bytes of its search window, which a 32-bit `usize` cannot hold.
pub open spec fn ooxml_offset_overflows(c: Seq<u8>) -> bool {
    &&& holds_at(c, 0, seq![0x50u8, 0x4Bu8, 0x03u8, 0x04u8])
    &&& (holds_at(c, 30, seq![0x5bu8, 0x43u8, 0x6fu8, 0x6eu8, 0x74u8, 0x65u8, 0x6eu8, 0x74u8, 0x5fu8, 0x54u8, 0x79u8, 0x70u8, 0x65u8, 0x73u8, 0x5du8, 0x2eu8, 0x78u8, 0x6du8, 0x6cu8]) || holds_at(c, 30, seq![0x5fu8, 0x72u8, 0x65u8, 0x6cu8, 0x73u8, 0x2fu8, 0x2eu8, 0x72u8, 0x65u8, 0x6cu8, 0x73u8])
        || holds_at(c, 30, seq![0x64u8, 0x6fu8, 0x63u8, 0x50u8, 0x72u8, 0x6fu8, 0x70u8, 0x73u8]))
    &&& le_word(c, 18) + 6049 > 0xFFFF_FFFF
}

/// Whether content sniffing can classify `c` without failing.
pub open spec fn sniffable(c: Seq<u8>) -> bool {
    !cr2_header_cut_short(c) && !ooxml_offset_overflows(c)
}

/// Relies on `infer::get` and `infer::Type::mime_type`: the MIME type of the
/// first matcher that recognises the bytes; it depends on the bytes alone.
#[verifier::external_body]
fn sniff(content: &[u8]) -> (r: Option<&'static str>)
    requires
        sniffable(content@),
    ensures
        opt_text(r) == sniffed_mime(content@),
{
    infer::get(content).map(|kind| kind.mime_type())
}

fn holds_bytes_at(c: &Vec<u8>, at: usize, name: &[u8]) -> (r: bool)
    requires
        at <= usize::MAX / 2,
        name@.len() <= usize::MAX / 2,
    ensures
        r == holds_at(c@, at as int, name@),
{
    if at + name.len() > c.len() {
        return false;
    }
    let mut i: usize = 0;
    while i < name.len()
        invariant
            at + name@.len() <= c.len(),
            i <= name@.len(),
            forall|j: int| 0 <= j < i ==> c@[at + j] == name@[j],
        decreases name@.len() - i,
    {
        if c[at + i] != name[i] {
            assert(c@.subrange(at as int, at + name@.len())[i as int] != name@[i as int]);
            return false;
        }
        i = i + 1;
    }
    assert(c@.subrange(at as int, at + name@.len()) =~= name@);
    true
}

fn same_chars(a: &Vec<char>, b: &[char]) -> (r: bool)
    ensures
        r == (a@ == b@),
{
    if a.len() != b.len() {
        return false;
    }
    let mut i: usize = 0;
    while i < a.len()
        invariant
            a@.len() == b@.len(),
            i <= a.len(),
            forall|j: int| 0 <= j < i ==> a@[j] == b@[j],
        decreases a.len() - i,
    {
        if a[i] != b[i] {
            return false;
        }
        i = i + 1;
    }
    assert(a@ =~= b@);
    true
}

impl MimeType {
    /// The text form of the MIME type.
    pub fn to_string(&self) -> (r: String)
        ensures
            r@ == mime_text(*self),
    {
        let text = match self {
            MimeType::CSS => "text/css",
            MimeType::CSV => "text/csv",
            MimeType::HTML => "text/html",
            MimeType::ICO => "image/vnd.microsoft.icon",
            MimeType::JS => "text/javascript",
            MimeType::JSON => "application/json",
            MimeType::JSONLD => "application/ld+json",
            MimeType::OCTETSTREAM => "application/octet-stream",
            MimeType::RTF => "application/rtf",
            MimeType::SVG => "image/svg+xml",
        };
        String::from_str(text)
    }

    /// Chooses the MIME type to serve from a sniffing result and the URI: the
    /// sniffed type, unless it is missing or plain text.
    pub fn parse_sniffed(sniffed: Option<&str>, uri: &str) -> (r: String)
        ensures
            r@ == served_mime(opt_text(sniffed), uri@),
    {
        match sniffed {
            Some(m) => {
                let found = String::from_str(m);
                let plain = String::from_str("text/plain");
                if found == plain {
                    MimeType::parse_from_uri(uri).to_string()
                } else {
                    found
                }
            },
            None => MimeType::parse_from_uri(uri).to_string(),
        }
    }

    /// Whether content sniffing can classify `content` without failing, as
    /// `parse` requires.
    pub fn can_sniff(content: &Vec<u8>) -> (r: bool)
        ensures
            r == sniffable(content@),
    {
        let c = content;
        let cut_short = c.len() == 10 && (holds_bytes_at(c, 0, &[0x49u8, 0x49u8, 0x2Au8, 0x00u8])
            || holds_bytes_at(c, 0, &[0x4Du8, 0x4Du8, 0x00u8, 0x2Au8])) && c[8] == 0x43 && c[9]
            == 0x52;
        let overflows = c.len() >= 22 && holds_bytes_at(c, 0, &[0x50u8, 0x4Bu8, 0x03u8, 0x04u8])
            && (holds_bytes_at(c, 30, &[0x5bu8, 0x43u8, 0x6fu8, 0x6eu8, 0x74u8, 0x65u8, 0x6eu8, 0x74u8, 0x5fu8, 0x54u8, 0x79u8, 0x70u8, 0x65u8, 0x73u8, 0x5du8, 0x2eu8, 0x78u8, 0x6du8, 0x6cu8]) || holds_bytes_at(c, 30, &[0x5fu8, 0x72u8, 0x65u8, 0x6cu8, 0x73u8, 0x2fu8, 0x2eu8, 0x72u8, 0x65u8, 0x6cu8, 0x73u8]) || holds_bytes_at(
            c,
            30,
            &[0x64u8, 0x6fu8, 0x63u8, 0x50u8, 0x72u8, 0x6fu8, 0x70u8, 0x73u8],
        )) && (c[18] as u64) + 256 * (c[19] as u64) + 65536 * (c[20] as u64) + 16777216 * (
        c[21] as u64) + 6049 > 0xFFFF_FFFFu64;
        !cut_short && !overflows
    }

    /// Infers the MIME type from the content, falling back on the URI when the
    /// content is not recognised or is plain text.
    pub fn parse(content: &Vec<u8>, uri: &str) -> (r: String)
        requires
            sniffable(content@),
        ensures
            r@ == served_mime(sniffed_mime(content@), uri@),
    {
        let sniffed = sniff(content.as_slice());
        MimeType::parse_sniffed(sniffed, uri)
    }

    /// Guesses the MIME type of a URI from the text after its last `.`.
    pub fn parse_from_uri(uri: &str) -> (r: MimeType)
        ensures
            r == mime_of_uri(uri@),
    {
        let mut suffix: Vec<char> = Vec::new();
        for c in it: uri.chars()
            invariant
                it.seq() == uri@,
                suffix@ == suffix_of(uri@.take(it.index() as int)),
        {
            proof {
                let done = uri@.take(it.index() as int);
                assert(uri@.take(it.index() + 1).drop_last() =~= done);
            }
            if c == '.' {
                suffix = Vec::new();
            } else {
                suffix.push(c);
            }
        }
        assert(uri@.take(uri@.len() as int) =~= uri@);
        if same_chars(&suffix, &['b', 'i', 'n']) {
            MimeType::OCTETSTREAM
        } else if same_chars(&suffix, &['c', 's', 's']) {
            MimeType::CSS
        } else if same_chars(&suffix, &['c', 's', 'v']) {
            MimeType::CSV
        } else if same_chars(&suffix, &['h', 't', 'm', 'l']) {
            MimeType::HTML
        } else if same_chars(&suffix, &['i', 'c', 'o']) {
            MimeType::ICO
        } else if same_chars(&suffix, &['j', 's']) {
            MimeType::JS
        } else if same_chars(&suffix, &['j', 's', 'o', 'n']) {
            MimeType::JSON
        } else if same_chars(&suffix, &['j', 's', 'o', 'n', 'l', 'd']) {
            MimeType::JSONLD
        } else if same_chars(&suffix, &['r', 't', 'f']) {
            MimeType::RTF
        } else if same_chars(&suffix, &['s', 'v', 'g']) {
            MimeType::SVG
        } else {
            MimeType::HTML
        }
    }
}

} // verus!
