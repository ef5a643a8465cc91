//! The file-type classifier: the high bits of a POSIX mode word name one of
//! seven entry kinds, each bound to a one-character display tag.
//!
//! The numeric table and its inverse (kind to tag) live side by side here so
//! classification and rendering cannot drift apart.

use vstd::prelude::*;

verus! {

/// The closed set of entry kinds a mode word can encode.
#[derive(Clone, Copy, Debug, PartialEq, Eq, Structural)]
pub enum FileType {
    Socket,
    SymbolicLink,
    RegularFile,
    BlockDevice,
    Directory,
    CharDevice,
    Fifo,
}

/// Classification failure: the mode word's type bits match no known kind.
/// Carries the offending mode word for diagnostics.
#[derive(Clone, Copy, Debug, PartialEq, Eq, Structural)]
pub enum ClassificationError {
    UnknownType(u32),
}

/// The type-bit pattern bound to each kind.
pub open spec fn type_code_spec(t: FileType) -> u32 {
    match t {
        FileType::Socket => 0o140000,
        FileType::SymbolicLink => 0o120000,
        FileType::RegularFile => 0o100000,
        FileType::BlockDevice => 0o060000,
        FileType::Directory => 0o040000,
        FileType::CharDevice => 0o020000,
        FileType::Fifo => 0o010000,
    }
}

/// The one-character display tag bound to each kind.
pub open spec fn type_char_spec(t: FileType) -> char {
    match t {
        FileType::Socket => 's',
        FileType::SymbolicLink => 'l',
        FileType::RegularFile => '.',
        FileType::BlockDevice => 'b',
        FileType::Directory => 'd',
        FileType::CharDevice => 'c',
        FileType::Fifo => 'f',
    }
}

/// What classifying a mode word yields: the kind whose pattern equals the
/// word's type bits, or a failure carrying the word itself.
pub open spec fn classify_spec(mode: u32) -> Result<FileType, ClassificationError> {
    let t = mode & 0o170000;
    if t == 0o140000 {
        Ok(FileType::Socket)
    } else if t == 0o120000 {
        Ok(FileType::SymbolicLink)
    } else if t == 0o100000 {
        Ok(FileType::RegularFile)
    } else if t == 0o060000 {
        Ok(FileType::BlockDevice)
    } else if t == 0o040000 {
        Ok(FileType::Directory)
    } else if t == 0o020000 {
        Ok(FileType::CharDevice)
    } else if t == 0o010000 {
        Ok(FileType::Fifo)
    } else {
        Err(ClassificationError::UnknownType(mode))
    }
}

impl FileType {
    /// The numeric type-bit pattern of this kind.
    pub fn code(self) -> (c: u32)
        ensures
            c == type_code_spec(self),
    {
        match self {
            FileType::Socket => 0o140000,
            FileType::SymbolicLink => 0o120000,
            FileType::RegularFile => 0o100000,
            FileType::BlockDevice => 0o060000,
            FileType::Directory => 0o040000,
            FileType::CharDevice => 0o020000,
            FileType::Fifo => 0o010000,
        }
    }

    /// Classifies a raw mode word: masks it to the type-bit field and looks
    /// the pattern up; any unmatched value fails rather than defaulting to a
    /// kind, so callers treat it as "metadata unavailable".
    pub fn classify(mode: u32) -> (r: Result<FileType, ClassificationError>)
        ensures
            r == classify_spec(mode),
    {
        let t = mode & 0o170000;
        if t == 0o140000 {
            Ok(FileType::Socket)
        } else if t == 0o120000 {
            Ok(FileType::SymbolicLink)
        } else if t == 0o100000 {
            Ok(FileType::RegularFile)
        } else if t == 0o060000 {
            Ok(FileType::BlockDevice)
        } else if t == 0o040000 {
            Ok(FileType::Directory)
        } else if t == 0o020000 {
            Ok(FileType::CharDevice)
        } else if t == 0o010000 {
            Ok(FileType::Fifo)
        } else {
            Err(ClassificationError::UnknownType(mode))
        }
    }

    /// The display tag character of this kind.
    pub fn display_tag(self) -> (c: char)
        ensures
            c == type_char_spec(self),
    {
        match self {
            FileType::Socket => 's',
            FileType::SymbolicLink => 'l',
            FileType::RegularFile => '.',
            FileType::BlockDevice => 'b',
            FileType::Directory => 'd',
            FileType::CharDevice => 'c',
            FileType::Fifo => 'f',
        }
    }

    /// The display tag as a one-character text.
    pub fn tag_str(self) -> (s: &'static str)
        ensures
            s@ == seq![type_char_spec(self)],
    {
        let s: &'static str = match self {
            FileType::Socket => "s",
            FileType::SymbolicLink => "l",
            FileType::RegularFile => ".",
            FileType::BlockDevice => "b",
            FileType::Directory => "d",
            FileType::CharDevice => "c",
            FileType::Fifo => "f",
        };
        proof {
            reveal_strlit("s");
            reveal_strlit("l");
            reveal_strlit(".");
            reveal_strlit("b");
            reveal_strlit("d");
            reveal_strlit("c");
            reveal_strlit("f");
            assert(s@ =~= seq![type_char_spec(self)]);
        }
        s
    }
}

/// Law: classification is total over the seven defined type-bit patterns —
/// each kind's own pattern classifies back to that kind.
pub proof fn lemma_classify_total_on_known(t: FileType)
    ensures
        classify_spec(type_code_spec(t)) == Ok::<FileType, ClassificationError>(t),
{
    assert(0o140000u32 & 0o170000 == 0o140000) by (bit_vector);
    assert(0o120000u32 & 0o170000 == 0o120000) by (bit_vector);
    assert(0o100000u32 & 0o170000 == 0o100000) by (bit_vector);
    assert(0o060000u32 & 0o170000 == 0o060000) by (bit_vector);
    assert(0o040000u32 & 0o170000 == 0o040000) by (bit_vector);
    assert(0o020000u32 & 0o170000 == 0o020000) by (bit_vector);
    assert(0o010000u32 & 0o170000 == 0o010000) by (bit_vector);
}

/// Law: classification fails exactly on the mode words whose masked type
/// bits equal no kind's pattern, and the failure names that word.
pub proof fn lemma_classify_unknown(mode: u32)
    ensures
        (classify_spec(mode) is Err) <==> (forall|t: FileType|
            #[trigger] type_code_spec(t) != mode & 0o170000),
        (classify_spec(mode) is Err) ==> classify_spec(mode) == Err::<FileType,
            ClassificationError,
        >(ClassificationError::UnknownType(mode)),
{
    let m = mode & 0o170000;
    if classify_spec(mode) is Ok {
        let t = classify_spec(mode)->Ok_0;
        assert(type_code_spec(t) == m);
    } else {
        assert(forall|t: FileType| #[trigger] type_code_spec(t) != m) by {
            assert(type_code_spec(FileType::Socket) == 0o140000);
        }
    }
}

} // verus!
