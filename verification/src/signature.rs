//! Type signatures: the letters that write a type, the tree that a
//! signature stands for, and a parser from the one to the other.

use vstd::prelude::*;
use crate::text::to_chars;

verus! {

/// The letter of the boolean type.
pub const LETTER_BOOLEAN: char = 'b';

/// The letter of the byte type.
pub const LETTER_BYTE: char = 'y';

/// The letter of the signed 16-bit type.
pub const LETTER_INT16: char = 'n';

/// The letter of the unsigned 16-bit type.
pub const LETTER_UINT16: char = 'q';

/// The letter of the signed 32-bit type.
pub const LETTER_INT32: char = 'i';

/// The letter of the unsigned 32-bit type.
pub const LETTER_UINT32: char = 'u';

/// The letter of the signed 64-bit type.
pub const LETTER_INT64: char = 'x';

/// The letter of the unsigned 64-bit type.
pub const LETTER_UINT64: char = 't';

/// The letter of the handle type.
pub const LETTER_HANDLE: char = 'h';

/// The letter of the double-precision type.
pub const LETTER_DOUBLE: char = 'd';

/// The letter of the text type.
pub const LETTER_STRING: char = 's';

/// The letter of the object path type.
pub const LETTER_OBJECT_PATH: char = 'o';

/// The letter of the signature type.
pub const LETTER_SIGNATURE: char = 'g';

/// The letter of the boxed type, which holds a value of any type.
pub const LETTER_VARIANT: char = 'v';

/// The letter that stands before the element type of an array.
pub const LETTER_ARRAY: char = 'a';

/// The letter that stands before the element type of a maybe.
pub const LETTER_MAYBE: char = 'm';

/// The bracket that opens a tuple.
pub const TUPLE_OPEN: char = '(';

/// The bracket that closes a tuple.
pub const TUPLE_CLOSE: char = ')';

/// The bracket that opens a dictionary entry.
pub const ENTRY_OPEN: char = '{';

/// The bracket that closes a dictionary entry.
pub const ENTRY_CLOSE: char = '}';

/// A type without parts: the only kind that may be the key of a dictionary
/// entry.
#[derive(Debug, Clone, Copy, PartialEq, Eq, Structural)]
pub enum BasicType {
    Boolean,
    Byte,
    Int16,
    UInt16,
    Int32,
    UInt32,
    Int64,
    UInt64,
    Handle,
    Double,
    String,
    ObjectPath,
    Signature,
}

impl BasicType {
    /// The one letter that names this type in a signature.
    pub open spec fn letter(self) -> char {
        match self {
            BasicType::Boolean => LETTER_BOOLEAN,
            BasicType::Byte => LETTER_BYTE,
            BasicType::Int16 => LETTER_INT16,
            BasicType::UInt16 => LETTER_UINT16,
            BasicType::Int32 => LETTER_INT32,
            BasicType::UInt32 => LETTER_UINT32,
            BasicType::Int64 => LETTER_INT64,
            BasicType::UInt64 => LETTER_UINT64,
            BasicType::Handle => LETTER_HANDLE,
            BasicType::Double => LETTER_DOUBLE,
            BasicType::String => LETTER_STRING,
            BasicType::ObjectPath => LETTER_OBJECT_PATH,
            BasicType::Signature => LETTER_SIGNATURE,
        }
    }

    /// The basic type that `letter` names, if it names one.
    pub open spec fn named_by(letter: char) -> Option<BasicType> {
        if letter == LETTER_BOOLEAN {
            Some(BasicType::Boolean)
        } else if letter == LETTER_BYTE {
            Some(BasicType::Byte)
        } else if letter == LETTER_INT16 {
            Some(BasicType::Int16)
        } else if letter == LETTER_UINT16 {
            Some(BasicType::UInt16)
        } else if letter == LETTER_INT32 {
            Some(BasicType::Int32)
        } else if letter == LETTER_UINT32 {
            Some(BasicType::UInt32)
        } else if letter == LETTER_INT64 {
            Some(BasicType::Int64)
        } else if letter == LETTER_UINT64 {
            Some(BasicType::UInt64)
        } else if letter == LETTER_HANDLE {
            Some(BasicType::Handle)
        } else if letter == LETTER_DOUBLE {
            Some(BasicType::Double)
        } else if letter == LETTER_STRING {
            Some(BasicType::String)
        } else if letter == LETTER_OBJECT_PATH {
            Some(BasicType::ObjectPath)
        } else if letter == LETTER_SIGNATURE {
            Some(BasicType::Signature)
        } else {
            None
        }
    }

    /// Reads one letter as a basic type.
    pub fn from_letter(letter: char) -> (r: Option<BasicType>)
        ensures
            r == Self::named_by(letter),
            r matches Some(b) ==> b.letter() == letter,
            r is None ==> forall|b: BasicType| b.letter() != letter,
    {
        if letter == LETTER_BOOLEAN {
            Some(BasicType::Boolean)
        } else if letter == LETTER_BYTE {
            Some(BasicType::Byte)
        } else if letter == LETTER_INT16 {
            Some(BasicType::Int16)
        } else if letter == LETTER_UINT16 {
            Some(BasicType::UInt16)
        } else if letter == LETTER_INT32 {
            Some(BasicType::Int32)
        } else if letter == LETTER_UINT32 {
            Some(BasicType::UInt32)
        } else if letter == LETTER_INT64 {
            Some(BasicType::Int64)
        } else if letter == LETTER_UINT64 {
            Some(BasicType::UInt64)
        } else if letter == LETTER_HANDLE {
            Some(BasicType::Handle)
        } else if letter == LETTER_DOUBLE {
            Some(BasicType::Double)
        } else if letter == LETTER_STRING {
            Some(BasicType::String)
        } else if letter == LETTER_OBJECT_PATH {
            Some(BasicType::ObjectPath)
        } else if letter == LETTER_SIGNATURE {
            Some(BasicType::Signature)
        } else {
            None
        }
    }
}

/// The mathematical content of a type signature.
pub enum SignatureModel {
    Basic(BasicType),
    Variant,
    Array(Box<SignatureModel>),
    Maybe(Box<SignatureModel>),
    Tuple(Seq<SignatureModel>),
    DictEntry(BasicType, Box<SignatureModel>),
}

impl SignatureModel {
    /// How the type is written: a letter for a basic type and for the boxed
    /// type, `a` or `m` before the element of an array or a maybe, the items
    /// of a tuple between round brackets, and the key and the value of a
    /// dictionary entry between curly ones.
    pub open spec fn text(self) -> Seq<char>
        decreases self,
    {
        match self {
            SignatureModel::Basic(basic) => seq![basic.letter()],
            SignatureModel::Variant => seq![LETTER_VARIANT],
            SignatureModel::Array(element) => seq![LETTER_ARRAY] + element.text(),
            SignatureModel::Maybe(element) => seq![LETTER_MAYBE] + element.text(),
            SignatureModel::Tuple(items) => seq![TUPLE_OPEN] + texts(items) + seq![TUPLE_CLOSE],
            SignatureModel::DictEntry(key, value) => seq![ENTRY_OPEN, key.letter()] + value.text()
                + seq![ENTRY_CLOSE],
        }
    }
}

/// The texts of `items`, one after the other.
pub open spec fn texts(items: Seq<SignatureModel>) -> Seq<char>
    decreases items,
{
    if items.len() == 0 {
        Seq::empty()
    } else {
        items[0].text() + texts(items.drop_first())
    }
}

/// The type that is written in `s` from `pos` on, with the place where its
/// text ends.
spec fn scan(s: Seq<char>, pos: int) -> Option<(SignatureModel, int)>
    decreases s.len() - pos, 0nat,
{
    if pos < 0 || pos >= s.len() {
        None
    } else if BasicType::named_by(s[pos]) is Some {
        Some((SignatureModel::Basic(BasicType::named_by(s[pos])->0), pos + 1))
    } else if s[pos] == LETTER_VARIANT {
        Some((SignatureModel::Variant, pos + 1))
    } else if s[pos] == LETTER_ARRAY {
        match scan(s, pos + 1) {
            Some((element, end)) => Some((SignatureModel::Array(Box::new(element)), end)),
            None => None,
        }
    } else if s[pos] == LETTER_MAYBE {
        match scan(s, pos + 1) {
            Some((element, end)) => Some((SignatureModel::Maybe(Box::new(element)), end)),
            None => None,
        }
    } else if s[pos] == ENTRY_OPEN {
        if pos + 1 < s.len() && BasicType::named_by(s[pos + 1]) is Some {
            match scan(s, pos + 2) {
                Some((value, end)) => if 0 <= end < s.len() && s[end] == ENTRY_CLOSE {
                    Some(
                        (
                            SignatureModel::DictEntry(
                                BasicType::named_by(s[pos + 1])->0,
                                Box::new(value),
                            ),
                            end + 1,
                        ),
                    )
                } else {
                    None
                },
                None => None,
            }
        } else {
            None
        }
    } else if s[pos] == TUPLE_OPEN {
        match scan_items(s, pos + 1) {
            Some((items, end)) => Some((SignatureModel::Tuple(items), end)),
            None => None,
        }
    } else {
        None
    }
}

/// The items that are written in `s` from `pos` up to the bracket that
/// closes their tuple, with the place after that bracket.
spec fn scan_items(s: Seq<char>, pos: int) -> Option<(Seq<SignatureModel>, int)>
    decreases s.len() - pos, 1nat,
{
    if pos < 0 || pos >= s.len() {
        None
    } else if s[pos] == TUPLE_CLOSE {
        Some((Seq::empty(), pos + 1))
    } else {
        match scan(s, pos) {
            Some((head, mid)) => if pos < mid <= s.len() {
                match scan_items(s, mid) {
                    Some((tail, end)) => Some((seq![head] + tail, end)),
                    None => None,
                }
            } else {
                None
            },
            None => None,
        }
    }
}

/// What `scan` finds is written where it found it.
proof fn lemma_scan_sound(s: Seq<char>, pos: int)
    ensures
        scan(s, pos) matches Some((m, end)) ==> 0 <= pos < end <= s.len() && s.subrange(pos, end)
            == m.text(),
    decreases s.len() - pos, 0nat,
{
    if pos < 0 || pos >= s.len() {
    } else if BasicType::named_by(s[pos]) is Some {
        let basic = BasicType::named_by(s[pos])->0;
        assert(s.subrange(pos, pos + 1) =~= seq![basic.letter()]);
    } else if s[pos] == LETTER_VARIANT {
        assert(s.subrange(pos, pos + 1) =~= seq![LETTER_VARIANT]);
    } else if s[pos] == LETTER_ARRAY || s[pos] == LETTER_MAYBE {
        lemma_scan_sound(s, pos + 1);
        if let Some((element, end)) = scan(s, pos + 1) {
            assert(s.subrange(pos, end) =~= seq![s[pos]] + s.subrange(pos + 1, end));
        }
    } else if s[pos] == ENTRY_OPEN {
        if pos + 1 < s.len() && BasicType::named_by(s[pos + 1]) is Some {
            lemma_scan_sound(s, pos + 2);
            if let Some((value, end)) = scan(s, pos + 2) {
                if end < s.len() && s[end] == ENTRY_CLOSE {
                    assert(s.subrange(pos, end + 1) =~= seq![ENTRY_OPEN, s[pos + 1]] + s.subrange(
                        pos + 2,
                        end,
                    ) + seq![ENTRY_CLOSE]);
                }
            }
        }
    } else if s[pos] == TUPLE_OPEN {
        lemma_scan_items_sound(s, pos + 1);
        if let Some((items, end)) = scan_items(s, pos + 1) {
            assert(s.subrange(pos, end) =~= seq![TUPLE_OPEN] + s.subrange(pos + 1, end));
            assert(seq![TUPLE_OPEN] + (texts(items) + seq![TUPLE_CLOSE]) =~= seq![TUPLE_OPEN]
                + texts(items) + seq![TUPLE_CLOSE]);
        }
    }
}

/// What `scan_items` finds is written where it found it, with the closing
/// bracket behind.
proof fn lemma_scan_items_sound(s: Seq<char>, pos: int)
    ensures
        scan_items(s, pos) matches Some((items, end)) ==> 0 <= pos < end <= s.len() && s.subrange(
            pos,
            end,
        ) == texts(items) + seq![TUPLE_CLOSE],
    decreases s.len() - pos, 1nat,
{
    if pos < 0 || pos >= s.len() {
    } else if s[pos] == TUPLE_CLOSE {
        assert(texts(Seq::<SignatureModel>::empty()) =~= Seq::<char>::empty());
        assert(s.subrange(pos, pos + 1) =~= Seq::<char>::empty() + seq![TUPLE_CLOSE]);
    } else {
        lemma_scan_sound(s, pos);
        if let Some((head, mid)) = scan(s, pos) {
            lemma_scan_items_sound(s, mid);
            if let Some((tail, end)) = scan_items(s, mid) {
                let items = seq![head] + tail;
                assert(items[0] == head);
                assert(items.drop_first() =~= tail);
                assert(texts(items) == head.text() + texts(tail));
                assert(s.subrange(pos, end) =~= s.subrange(pos, mid) + s.subrange(mid, end));
                assert(head.text() + (texts(tail) + seq![TUPLE_CLOSE]) =~= head.text() + texts(
                    tail,
                ) + seq![TUPLE_CLOSE]);
            }
        }
    }
}

/// A text begins with the letter of its kind, which never is the bracket
/// that closes a tuple.
proof fn lemma_text_begins(m: SignatureModel)
    ensures
        m.text().len() >= 1,
        m.text()[0] != TUPLE_CLOSE,
        m is Basic ==> m.text()[0] == m->Basic_0.letter(),
        m is Variant ==> m.text()[0] == LETTER_VARIANT,
        m is Array ==> m.text()[0] == LETTER_ARRAY,
        m is Maybe ==> m.text()[0] == LETTER_MAYBE,
        m is Tuple ==> m.text()[0] == TUPLE_OPEN,
        m is DictEntry ==> m.text()[0] == ENTRY_OPEN,
{
}

/// A type is found wherever its text is written.
proof fn lemma_text_scans(m: SignatureModel, s: Seq<char>, pos: int)
    requires
        0 <= pos,
        pos + m.text().len() <= s.len(),
        s.subrange(pos, pos + m.text().len()) == m.text(),
    ensures
        scan(s, pos) == Some((m, pos + m.text().len())),
    decreases m,
{
    lemma_text_begins(m);
    let len = m.text().len() as int;
    assert(s[pos] == s.subrange(pos, pos + len)[0]);
    match m {
        SignatureModel::Basic(basic) => {
            assert(BasicType::named_by(basic.letter()) == Some(basic));
        },
        SignatureModel::Variant => {},
        SignatureModel::Array(element) => {
            assert(s.subrange(pos + 1, pos + len) =~= s.subrange(pos, pos + len).subrange(1, len));
            assert(m.text().subrange(1, len) =~= element.text());
            lemma_text_scans(*element, s, pos + 1);
        },
        SignatureModel::Maybe(element) => {
            assert(s.subrange(pos + 1, pos + len) =~= s.subrange(pos, pos + len).subrange(1, len));
            assert(m.text().subrange(1, len) =~= element.text());
            lemma_text_scans(*element, s, pos + 1);
        },
        SignatureModel::DictEntry(key, value) => {
            assert(s[pos + 1] == s.subrange(pos, pos + len)[1]);
            assert(s[pos + len - 1] == s.subrange(pos, pos + len)[len - 1]);
            assert(BasicType::named_by(key.letter()) == Some(key));
            assert(s.subrange(pos + 2, pos + len - 1) =~= s.subrange(pos, pos + len).subrange(
                2,
                len - 1,
            ));
            assert(m.text().subrange(2, len - 1) =~= value.text());
            lemma_text_scans(*value, s, pos + 2);
        },
        SignatureModel::Tuple(items) => {
            assert(s.subrange(pos + 1, pos + len) =~= s.subrange(pos, pos + len).subrange(1, len));
            assert(m.text().subrange(1, len) =~= texts(items) + seq![TUPLE_CLOSE]);
            lemma_texts_scan(items, s, pos + 1);
        },
    }
}

/// The items of a tuple are found wherever their texts are written one
/// after the other with the closing bracket behind.
proof fn lemma_texts_scan(items: Seq<SignatureModel>, s: Seq<char>, pos: int)
    requires
        0 <= pos,
        pos + texts(items).len() + 1 <= s.len(),
        s.subrange(pos, pos + texts(items).len() + 1) == texts(items) + seq![TUPLE_CLOSE],
    ensures
        scan_items(s, pos) == Some((items, pos + texts(items).len() + 1)),
    decreases items,
{
    let len = texts(items).len() as int;
    let written = s.subrange(pos, pos + len + 1);
    assert(s[pos] == written[0]);
    if items.len() == 0 {
        assert(items =~= Seq::empty());
    } else {
        let head = items[0];
        let tail = items.drop_first();
        let mid = pos + head.text().len();
        lemma_text_begins(head);
        assert(written[0] == head.text()[0]);
        assert(s.subrange(pos, mid) =~= written.subrange(0, head.text().len() as int));
        assert(written.subrange(0, head.text().len() as int) =~= head.text());
        lemma_text_scans(head, s, pos);
        assert(s.subrange(mid, pos + len + 1) =~= written.subrange(
            head.text().len() as int,
            len + 1,
        ));
        assert(written.subrange(head.text().len() as int, len + 1) =~= texts(tail) + seq![
            TUPLE_CLOSE,
        ]);
        lemma_texts_scan(tail, s, mid);
        assert(seq![head] + tail =~= items);
    }
}

/// A type signature as a tree.
#[derive(Debug, PartialEq, Eq)]
pub enum TypeSignature {
    Basic(BasicType),
    Variant,
    Array(Box<TypeSignature>),
    Maybe(Box<TypeSignature>),
    Tuple(Vec<TypeSignature>),
    DictEntry(BasicType, Box<TypeSignature>),
}

impl TypeSignature {
    /// What this signature holds, as a mathematical tree.
    pub open spec fn model(self) -> SignatureModel
        decreases self,
    {
        match self {
            TypeSignature::Basic(basic) => SignatureModel::Basic(basic),
            TypeSignature::Variant => SignatureModel::Variant,
            TypeSignature::Array(element) => SignatureModel::Array(Box::new(element.model())),
            TypeSignature::Maybe(element) => SignatureModel::Maybe(Box::new(element.model())),
            TypeSignature::Tuple(items) => SignatureModel::Tuple(Self::models(items)),
            TypeSignature::DictEntry(key, value) => SignatureModel::DictEntry(
                key,
                Box::new(value.model()),
            ),
        }
    }

    /// The models of `items`, in their order.
    pub open spec fn models(items: Vec<TypeSignature>) -> Seq<SignatureModel>
        decreases items,
    {
        Seq::new(
            items.len() as nat,
            |i: int|
                if 0 <= i < items.len() {
                    items[i].model()
                } else {
                    arbitrary()
                },
        )
    }

    fn parse_type(text: &[char], start: usize) -> (r: Option<(TypeSignature, usize)>)
        ensures
            match r {
                Some((found, end)) => end <= text.len() && scan(text@, start as int) == Some(
                    (found@, end as int),
                ),
                None => scan(text@, start as int) is None,
            },
        decreases text.len() - start, 0nat,
    {
        proof {
            lemma_scan_sound(text@, start as int);
        }
        if start >= text.len() {
            return None;
        }
        let letter = text[start];
        if let Some(basic) = BasicType::from_letter(letter) {
            Some((TypeSignature::Basic(basic), start + 1))
        } else if letter == LETTER_VARIANT {
            Some((TypeSignature::Variant, start + 1))
        } else if letter == LETTER_ARRAY {
            match Self::parse_type(text, start + 1) {
                Some((element, end)) => Some((TypeSignature::Array(Box::new(element)), end)),
                None => None,
            }
        } else if letter == LETTER_MAYBE {
            match Self::parse_type(text, start + 1) {
                Some((element, end)) => Some((TypeSignature::Maybe(Box::new(element)), end)),
                None => None,
            }
        } else if letter == ENTRY_OPEN {
            if start + 1 >= text.len() {
                return None;
            }
            match BasicType::from_letter(text[start + 1]) {
                Some(key) => match Self::parse_type(text, start + 2) {
                    Some((value, end)) => if end < text.len() && text[end] == ENTRY_CLOSE {
                        Some((TypeSignature::DictEntry(key, Box::new(value)), end + 1))
                    } else {
                        None
                    },
                    None => None,
                },
                None => None,
            }
        } else if letter == TUPLE_OPEN {
            match Self::parse_items(text, start + 1) {
                Some((items, end)) => Some((TypeSignature::Tuple(items), end)),
                None => None,
            }
        } else {
            None
        }
    }

    fn parse_items(text: &[char], start: usize) -> (r: Option<(Vec<TypeSignature>, usize)>)
        ensures
            match r {
                Some((found, end)) => end <= text.len() && scan_items(text@, start as int) == Some(
                    (Self::models(found), end as int),
                ),
                None => scan_items(text@, start as int) is None,
            },
        decreases text.len() - start, 1nat,
    {
        if start >= text.len() {
            return None;
        }
        if text[start] == TUPLE_CLOSE {
            let none: Vec<TypeSignature> = Vec::new();
            assert(Self::models(none) =~= Seq::empty());
            return Some((none, start + 1));
        }
        proof {
            lemma_scan_sound(text@, start as int);
        }
        match Self::parse_type(text, start) {
            Some((head, mid)) => match Self::parse_items(text, mid) {
                Some((tail, end)) => {
                    let ghost rest = Self::models(tail);
                    let mut items = tail;
                    items.insert(0, head);
                    assert(Self::models(items) =~= seq![head@] + rest);
                    Some((items, end))
                },
                None => None,
            },
            None => None,
        }
    }

    /// Reads a signature. It must be the text of one type, from its first
    /// letter to its last, with nothing before or after.
    pub fn parse(text: &str) -> (r: Option<TypeSignature>)
        ensures
            match r {
                Some(found) => found@.text() == text@,
                None => forall|m: SignatureModel| m.text() != text@,
            },
    {
        let letters = to_chars(text);
        proof {
            lemma_scan_sound(letters@, 0);
            assert forall|m: SignatureModel| m.text() == letters@ implies scan(letters@, 0)
                == Some((m, letters@.len() as int)) by {
                assert(letters@.subrange(0, letters@.len() as int) =~= letters@);
                lemma_text_scans(m, letters@, 0);
            }
        }
        match Self::parse_type(letters.as_slice(), 0) {
            Some((found, end)) => if end == letters.len() {
                assert(letters@.subrange(0, end as int) =~= letters@);
                Some(found)
            } else {
                None
            },
            None => None,
        }
    }
}

impl View for TypeSignature {
    type V = SignatureModel;

    open spec fn view(&self) -> SignatureModel {
        self.model()
    }
}

/// Two types that are written alike are the same type.
pub proof fn lemma_text_is_injective(a: SignatureModel, b: SignatureModel)
    requires
        a.text() == b.text(),
    ensures
        a == b,
{
    let s = a.text();
    assert(s.subrange(0, s.len() as int) =~= s);
    lemma_text_scans(a, s, 0);
    lemma_text_scans(b, s, 0);
}

} // verus!
