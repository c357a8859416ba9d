use vstd::prelude::*;

verus! {

/// The pattern that splits a source line into words: a double-quoted string
/// with at least one character inside, or a run of characters that are
/// neither white space nor a double quote.
pub const TOKEN_PATTERN: &'static str = "\"[^\"]+\"|[^\\s\"]+";

/// The successive non-overlapping matches of a regular expression in a text.
pub uninterp spec fn regex_matches(pattern: Seq<char>, text: Seq<char>) -> Seq<Seq<char>>;

/// Relies on `regex::Regex::new`, which refuses only an invalid pattern or
/// one over the default size limit (the word pattern is neither), and
/// `Regex::find_iter`, which yields the successive non-overlapping
/// leftmost-first matches of the pattern in the text.
#[verifier::external_body]
fn find_all(pattern: &str, text: &str) -> (r: Option<Vec<String>>)
    ensures
        pattern@ == TOKEN_PATTERN@ ==> r is Some,
        r matches Some(v) ==> v@.map_values(|s: String| s@) == regex_matches(pattern@, text@),
{
    match regex::Regex::new(pattern) {
        Ok(re) => Some(re.find_iter(text).map(|m| m.as_str().to_string()).collect()),
        Err(_) => None,
    }
}

/// A source line without its comment: everything before the first `;`.
pub open spec fn strip_comment_spec(line: Seq<char>) -> Seq<char> {
    line.take(comment_start(line))
}

/// Where the comment of a line starts: its first `;`, or its end.
pub open spec fn comment_start(line: Seq<char>) -> int {
    if exists|i: int| 0 <= i < line.len() && line[i] == ';' {
        choose|i: int|
            0 <= i < line.len() && line[i] == ';' && forall|j: int| 0 <= j < i ==> line[j] != ';'
    } else {
        line.len() as int
    }
}

/// The part of `line` before its first `;`.
pub fn strip_comment(line: &str) -> (r: String)
    ensures
        r@ == strip_comment_spec(line@),
{
    let n = line.unicode_len();
    let mut i: usize = 0;
    while i < n
        invariant
            n == line@.len(),
            i <= n,
            forall|j: int| 0 <= j < i ==> line@[j] != ';',
        ensures
            i <= n,
            forall|j: int| 0 <= j < i ==> line@[j] != ';',
            i < n ==> line@[i as int] == ';',
        decreases n - i,
    {
        if line.get_char(i) == ';' {
            break;
        }
        i = i + 1;
    }
    proof {
        if i < n {
            assert(line@[i as int] == ';');
            let k = comment_start(line@);
            assert(0 <= k < n && line@[k] == ';' && forall|j: int| 0 <= j < k ==> line@[j] != ';');
            assert(k == i);
        }
    }
    line.substring_char(0, i).to_owned()
}

/// A parsed source line: optional label, opcode and operands.
pub struct AST {
    pub label: Option<String>,
    pub opcode: Option<String>,
    pub operands: Option<Vec<String>>,
}

impl AST {
    /// An empty line: no label, opcode or operands.
    pub fn new() -> (a: Self)
        ensures
            a.label is None,
            a.opcode is None,
            a.operands is None,
    {
        AST { label: None, opcode: None, operands: None }
    }
}

/// An operand of the assembly language.
pub enum Token {
    Reg(u8),
    Mem(usize),
    Imm(i16),
    Str(String),
    Dat(Vec<i16>),
}

/// The assembler: the object code built so far and the labels defined.
pub struct Compiler {
    pub obj: Vec<u8>,
    pub labels: Vec<(String, usize)>,
}

impl Compiler {
    /// An assembler with empty object code and no labels.
    pub fn new() -> (c: Self)
        ensures
            c.obj@.len() == 0,
            c.labels@.len() == 0,
    {
        Compiler { obj: Vec::new(), labels: Vec::new() }
    }

    /// Splits a source line into words after dropping its comment.
    pub fn tokenize(&self, line: &str) -> (r: Option<Vec<String>>)
        ensures
            r is Some,
            r matches Some(v) ==> v@.map_values(|s: String| s@) == regex_matches(
                TOKEN_PATTERN@,
                strip_comment_spec(line@),
            ),
    {
        let code = strip_comment(line);
        find_all(TOKEN_PATTERN, code.as_str())
    }

    /// Splits every line of a source text into words.
    pub fn parse(&self, lines: &Vec<String>) -> (r: Option<Vec<Vec<String>>>)
        ensures
            r is Some,
            r matches Some(v) ==> v@.len() == lines@.len() && forall|i: int|
                0 <= i < lines@.len() ==> (#[trigger] v@[i])@.map_values(|s: String| s@) == regex_matches(
                    TOKEN_PATTERN@,
                    strip_comment_spec(lines@[i]@),
                ),
    {
        let mut out: Vec<Vec<String>> = Vec::new();
        let mut i: usize = 0;
        while i < lines.len()
            invariant
                i <= lines@.len(),
                out@.len() == i,
                forall|k: int|
                    0 <= k < i ==> (#[trigger] out@[k])@.map_values(|s: String| s@) == regex_matches(
                        TOKEN_PATTERN@,
                        strip_comment_spec(lines@[k]@),
                    ),
            decreases lines@.len() - i,
        {
            match self.tokenize(lines[i].as_str()) {
                Some(words) => out.push(words),
                None => return None,
            }
            i = i + 1;
        }
        Some(out)
    }
}

} // verus!
