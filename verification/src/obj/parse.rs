use crate::obj::text::decimal;
use crate::obj::text::decimal_spec;
use vstd::prelude::*;
use vstd::string::StringExecFns;
use vstd::string::StringSliceAdditionalSpecFns;

verus! {

/// Why a word is no index.
#[derive(Debug, Clone, Copy, PartialEq, Eq, Structural)]
pub enum IndexError {
    /// The word is empty.
    Empty,
    /// The word holds something other than decimal digits after an optional
    /// leading `+`, or no digit at all.
    InvalidDigit,
    /// The number does not fit the machine's index type.
    PosOverflow,
}

/// Why a word is no corner of a face.
#[derive(Debug, Clone, Copy, PartialEq, Eq, Structural)]
pub enum FaceError {
    /// The vertex field is no index.
    Vertex(IndexError),
    /// The word has fewer than three fields.
    MissingField,
    /// A corner names no normal.
    MissingNormal,
    /// An index is zero, or names a vertex that was not read yet.
    OutOfRange,
}

/// One corner of a face as written in a file, `vertex/texture/normal`: the
/// numbers as they stand there, counted from one; texture and normal may be
/// left out.
#[derive(Debug, Clone, Copy)]
pub struct FaceEntryElement {
    pub vertex: usize,
    pub texture: Option<usize>,
    pub normal: Option<usize>,
}

/// `c` is an ASCII decimal digit.
pub open spec fn is_digit(c: u8) -> bool {
    48 <= c <= 57
}

/// The number read from the `n` bytes of `word` that start at `from`, taken
/// as decimal digits from the left. Reading stops with an error at the first
/// byte that is no digit, or with which the number outgrows the index type.
pub open spec fn read_digits(word: Seq<u8>, from: int, n: nat) -> Result<nat, IndexError>
    decreases n,
{
    if n == 0 {
        Ok(0)
    } else {
        match read_digits(word, from, (n - 1) as nat) {
            Err(e) => Err(e),
            Ok(acc) => {
                let c = word[from + n - 1];
                if !is_digit(c) {
                    Err(IndexError::InvalidDigit)
                } else if acc * 10 + (c - 48) > usize::MAX {
                    Err(IndexError::PosOverflow)
                } else {
                    Ok((acc * 10 + (c - 48)) as nat)
                }
            },
        }
    }
}

/// The index that the bytes `from..to` of `word` spell: decimal digits, with
/// one `+` allowed in front.
pub open spec fn index_spec(word: Seq<u8>, from: int, to: int) -> Result<nat, IndexError> {
    if to <= from {
        Err(IndexError::Empty)
    } else {
        let start = if word[from] == 43 {
            from + 1
        } else {
            from
        };
        if to <= start {
            Err(IndexError::InvalidDigit)
        } else {
            read_digits(word, start, (to - start) as nat)
        }
    }
}

/// Position of the first `/` of `word` at or after `from`, or the length of
/// `word` where there is none: the end of the field that starts at `from`.
pub open spec fn field_end(word: Seq<u8>, from: int) -> int
    decreases word.len() - from,
{
    if from >= word.len() {
        word.len() as int
    } else if word[from] == 47 {
        from
    } else {
        field_end(word, from + 1)
    }
}

/// What `index_spec` gives, as an exec value.
pub open spec fn index_result(word: Seq<u8>, from: int, to: int) -> Result<usize, IndexError> {
    match index_spec(word, from, to) {
        Ok(n) => Ok(n as usize),
        Err(e) => Err(e),
    }
}

/// The same with the error dropped.
pub open spec fn index_option(word: Seq<u8>, from: int, to: int) -> Option<usize> {
    match index_spec(word, from, to) {
        Ok(n) => Some(n as usize),
        Err(_) => None,
    }
}

/// The corner that `word` spells. The vertex field must be an index; a
/// texture or normal field that is no index counts as left out. The word must
/// have three fields, though what is wrong with the vertex is reported first.
pub open spec fn face_entry_spec(word: Seq<u8>) -> Result<FaceEntryElement, FaceError> {
    let e0 = field_end(word, 0);
    let e1 = field_end(word, e0 + 1);
    let e2 = field_end(word, e1 + 1);
    match index_result(word, 0, e0) {
        Err(e) => Err(FaceError::Vertex(e)),
        Ok(vertex) => if e0 >= word.len() || e1 >= word.len() {
            Err(FaceError::MissingField)
        } else {
            Ok(
                FaceEntryElement {
                    vertex,
                    texture: index_option(word, e0 + 1, e1),
                    normal: index_option(word, e1 + 1, e2),
                },
            )
        },
    }
}

/// An optional index in decimal; nothing where it is left out.
pub open spec fn optional_text(index: Option<usize>) -> Seq<char> {
    match index {
        Some(n) => decimal_spec(n as nat),
        None => Seq::empty(),
    }
}

/// The corner as it is written in a file: `vertex/texture/normal`, with
/// nothing in the place of what is left out.
pub open spec fn face_entry_text(e: FaceEntryElement) -> Seq<char> {
    decimal_spec(e.vertex as nat) + "/"@ + optional_text(e.texture) + "/"@ + optional_text(
        e.normal,
    )
}

/// An optional index in decimal.
pub fn optional_decimal(index: Option<usize>) -> (r: String)
    ensures
        r@ == optional_text(index),
{
    match index {
        Some(n) => decimal(n),
        None => String::new(),
    }
}

/// The end of the field of `word` that starts at `from`.
pub fn find_field_end(word: &[u8], from: usize) -> (r: usize)
    requires
        from <= word@.len(),
    ensures
        r == field_end(word@, from as int),
        from <= r <= word@.len(),
{
    let mut i: usize = from;
    while i < word.len() && word[i] != 47
        invariant
            from <= i <= word@.len(),
            field_end(word@, from as int) == field_end(word@, i as int),
        decreases word@.len() - i,
    {
        i += 1;
    }
    i
}

/// Reads the bytes `from..to` of `word` as an index.
pub fn parse_index(word: &[u8], from: usize, to: usize) -> (r: Result<usize, IndexError>)
    requires
        to <= word@.len(),
    ensures
        r == index_result(word@, from as int, to as int),
{
    if to <= from {
        return Err(IndexError::Empty);
    }
    let start: usize = if word[from] == 43 {
        from + 1
    } else {
        from
    };
    if to <= start {
        return Err(IndexError::InvalidDigit);
    }
    let mut acc: usize = 0;
    let mut i: usize = start;
    while i < to
        invariant
            from < to,
            start == (if word@[from as int] == 43 {
                from + 1
            } else {
                from as int
            }),
            start <= i <= to <= word@.len(),
            read_digits(word@, start as int, (i - start) as nat) == Ok::<nat, IndexError>(
                acc as nat,
            ),
        decreases to - i,
    {
        let c: u8 = word[i];
        assert(read_digits(word@, start as int, ((i + 1) - start) as nat) == match read_digits(
            word@,
            start as int,
            (i - start) as nat,
        ) {
            Err(e) => Err(e),
            Ok(a) => {
                if !is_digit(c) {
                    Err(IndexError::InvalidDigit)
                } else if a * 10 + (c - 48) > usize::MAX {
                    Err(IndexError::PosOverflow)
                } else {
                    Ok((a * 10 + (c - 48)) as nat)
                }
            },
        });
        if c < 48 || c > 57 {
            proof {
                lemma_read_error_stays(
                    word@,
                    start as int,
                    ((i + 1) - start) as nat,
                    (to - start) as nat,
                );
            }
            return Err(IndexError::InvalidDigit);
        }
        let digit: usize = (c - 48) as usize;
        let next = match acc.checked_mul(10) {
            Some(tens) => tens.checked_add(digit),
            None => None,
        };
        match next {
            Some(value) => {
                acc = value;
            },
            None => {
                proof {
                    lemma_read_error_stays(
                        word@,
                        start as int,
                        ((i + 1) - start) as nat,
                        (to - start) as nat,
                    );
                }
                return Err(IndexError::PosOverflow);
            },
        }
        i += 1;
    }
    Ok(acc)
}

/// Once reading has failed it stays failed, with the same error, however
/// many more bytes are read.
pub proof fn lemma_read_error_stays(word: Seq<u8>, from: int, n: nat, m: nat)
    requires
        n <= m,
        read_digits(word, from, n) is Err,
    ensures
        read_digits(word, from, m) == read_digits(word, from, n),
    decreases m,
{
    if n < m {
        lemma_read_error_stays(word, from, n, (m - 1) as nat);
    }
}

impl FaceEntryElement {
    /// The corner as it is written in a file.
    pub fn print(&self) -> (r: String)
        ensures
            r@ == face_entry_text(*self),
    {
        let texture_string = optional_decimal(self.texture);
        let normal_string = optional_decimal(self.normal);
        let mut text = decimal(self.vertex);
        text.append("/");
        text.append(texture_string.as_str());
        text.append("/");
        text.append(normal_string.as_str());
        text
    }

    /// Reads one corner of a face, written `vertex/texture/normal`.
    pub fn new(s: &str) -> (r: Result<FaceEntryElement, FaceError>)
        ensures
            r == face_entry_spec(s.spec_bytes()),
    {
        let word = s.as_bytes();
        let e0 = find_field_end(word, 0);
        let vertex = match parse_index(word, 0, e0) {
            Ok(v) => v,
            Err(e) => {
                return Err(FaceError::Vertex(e));
            },
        };
        if e0 >= word.len() {
            return Err(FaceError::MissingField);
        }
        let e1 = find_field_end(word, e0 + 1);
        if e1 >= word.len() {
            return Err(FaceError::MissingField);
        }
        let e2 = find_field_end(word, e1 + 1);
        let texture = match parse_index(word, e0 + 1, e1) {
            Ok(v) => Some(v),
            Err(_) => None,
        };
        let normal = match parse_index(word, e1 + 1, e2) {
            Ok(v) => Some(v),
            Err(_) => None,
        };
        Ok(FaceEntryElement { vertex, texture, normal })
    }
}

} // verus!
