//! The operations the compiler supplies, by the tag their declarations carry.

use vstd::prelude::*;

use crate::symbol::{sym, sym_is, text_of_holds_the_string, Symbol};

verus! {

/// The rule an intrinsic needs beyond its declared signature.
#[derive(Debug, Clone, Copy, PartialEq, Eq, Structural)]
pub enum Special {
    /// The result may be written through, whatever its type argument says.
    MutableArg,
    /// The argument must be an array or a slice.
    SequenceArg,
}

/// One intrinsic.
#[derive(Debug, Clone, Copy)]
pub struct IntrinsicRow {
    /// The tag its declaration carries.
    pub tag: &'static str,
    pub special: Option<Special>,
}

/// How many intrinsics there are.
pub const ROW_COUNT: u64 = 20;

/// [`plain`], as a mathematical function.
pub open spec fn plain_spec(tag: &'static str) -> IntrinsicRow {
    IntrinsicRow { tag: tag, special: None }
}

/// An intrinsic its signature says everything about.
pub fn plain(tag: &'static str) -> (r: IntrinsicRow)
    ensures
        r == plain_spec(tag),
{
    IntrinsicRow { tag: tag, special: None }
}

/// [`special`], as a mathematical function.
pub open spec fn special_spec(tag: &'static str, rule: Special) -> IntrinsicRow {
    IntrinsicRow { tag: tag, special: Some(rule) }
}

/// An intrinsic with a rule of its own.
pub fn special(tag: &'static str, rule: Special) -> (r: IntrinsicRow)
    ensures
        r == special_spec(tag, rule),
{
    IntrinsicRow { tag: tag, special: Some(rule) }
}

/// [`row`], as a mathematical function.
pub open spec fn row_spec(i: u64) -> Option<IntrinsicRow> {
    match i {
        0 => Some(plain_spec("cast")),
        1 => Some(plain_spec("transmute")),
        2 => Some(plain_spec("size_of")),
        3 => Some(plain_spec("align_of")),
        4 => Some(plain_spec("new")),
        5 => Some(special_spec("make", Special::MutableArg)),
        6 => Some(plain_spec("drop")),
        7 => Some(special_spec("len", Special::SequenceArg)),
        8 => Some(plain_spec("index")),
        9 => Some(plain_spec("embed_file")),
        10 => Some(plain_spec("trap")),
        11 => Some(plain_spec("assert")),
        12 => Some(plain_spec("wrapping_add")),
        13 => Some(plain_spec("wrapping_sub")),
        14 => Some(plain_spec("type_info")),
        15 => Some(plain_spec("type_id")),
        16 => Some(plain_spec("member_ptr")),
        17 => Some(plain_spec("gc_collect")),
        18 => Some(plain_spec("gc_keep_alive")),
        19 => Some(plain_spec("gc_pin")),
        _ => None,
    }
}

/// The intrinsic at a position of the table.
pub fn row(i: u64) -> (r: Option<IntrinsicRow>)
    ensures
        r == row_spec(i),
{
    match i {
        0 => Some(plain("cast")),
        1 => Some(plain("transmute")),
        2 => Some(plain("size_of")),
        3 => Some(plain("align_of")),
        4 => Some(plain("new")),
        5 => Some(special("make", Special::MutableArg)),
        6 => Some(plain("drop")),
        7 => Some(special("len", Special::SequenceArg)),
        8 => Some(plain("index")),
        9 => Some(plain("embed_file")),
        10 => Some(plain("trap")),
        11 => Some(plain("assert")),
        12 => Some(plain("wrapping_add")),
        13 => Some(plain("wrapping_sub")),
        14 => Some(plain("type_info")),
        15 => Some(plain("type_id")),
        16 => Some(plain("member_ptr")),
        17 => Some(plain("gc_collect")),
        18 => Some(plain("gc_keep_alive")),
        19 => Some(plain("gc_pin")),
        _ => None,
    }
}

/// The first intrinsic with a tag, from a position on.
pub open spec fn row_from(tag: &Symbol, i: u64) -> Option<IntrinsicRow>
    decreases ROW_COUNT - i,
{
    if i < ROW_COUNT {
        match row_spec(i) {
            Some(r) => if *tag == crate::symbol::sym_spec(r.tag) {
                Some(r)
            } else {
                row_from(tag, (i + 1) as u64)
            },
            None => None,
        }
    } else {
        None
    }
}

/// [`row_of`], as a mathematical function.
pub open spec fn row_of_spec(tag: &Symbol) -> Option<IntrinsicRow> {
    row_from(tag, 0)
}

/// The first row that carries a tag.
pub fn row_of(tag: &Symbol) -> (r: Option<IntrinsicRow>)
    ensures
        r == row_of_spec(tag),
        match r {
            Some(x) => *tag == crate::symbol::sym_spec(x.tag) && exists|i: u64|
                i < ROW_COUNT && #[trigger] row_spec(i) == Some(x),
            None => forall|i: u64| i < ROW_COUNT ==> *tag != crate::symbol::sym_spec(
                (#[trigger] row_spec(i))->0.tag,
            ),
        },
{
    let mut i: u64 = 0;
    while i < ROW_COUNT
        invariant
            i <= ROW_COUNT,
            row_of_spec(tag) == row_from(tag, i),
            forall|j: u64| j < i ==> *tag != crate::symbol::sym_spec((#[trigger] row_spec(j))->0.tag),
        decreases ROW_COUNT - i,
    {
        match row(i) {
            Some(x) => {
                if sym_is(tag, x.tag) {
                    return Some(x);
                }
            },
            None => {
                return None;
            },
        }
        i = i + 1;
    }
    None
}

/// The tags there are.
pub open spec fn is_known(s: Seq<char>) -> bool {
    ||| s == "cast"@
    ||| s == "transmute"@
    ||| s == "size_of"@
    ||| s == "align_of"@
    ||| s == "new"@
    ||| s == "make"@
    ||| s == "drop"@
    ||| s == "len"@
    ||| s == "index"@
    ||| s == "embed_file"@
    ||| s == "trap"@
    ||| s == "assert"@
    ||| s == "wrapping_add"@
    ||| s == "wrapping_sub"@
    ||| s == "type_info"@
    ||| s == "type_id"@
    ||| s == "member_ptr"@
    ||| s == "gc_collect"@
    ||| s == "gc_keep_alive"@
    ||| s == "gc_pin"@
}

/// The rule each tag's intrinsic needs, if any.
pub open spec fn rule_of(s: Seq<char>) -> Option<Special> {
    if s == "make"@ {
        Some(Special::MutableArg)
    } else if s == "len"@ {
        Some(Special::SequenceArg)
    } else {
        None
    }
}

proof fn rows_follow_the_rule(i: u64)
    requires
        i < ROW_COUNT,
    ensures
        row_spec(i) is Some,
        is_known(row_spec(i)->0.tag@),
        row_spec(i)->0.special == rule_of(row_spec(i)->0.tag@),
{
    reveal_strlit("cast");
    reveal_strlit("transmute");
    reveal_strlit("size_of");
    reveal_strlit("align_of");
    reveal_strlit("new");
    reveal_strlit("make");
    reveal_strlit("drop");
    reveal_strlit("len");
    reveal_strlit("index");
    reveal_strlit("embed_file");
    reveal_strlit("trap");
    reveal_strlit("assert");
    reveal_strlit("wrapping_add");
    reveal_strlit("wrapping_sub");
    reveal_strlit("type_info");
    reveal_strlit("type_id");
    reveal_strlit("member_ptr");
    reveal_strlit("gc_collect");
    reveal_strlit("gc_keep_alive");
    reveal_strlit("gc_pin");
    assert("cast"@.len() == 4);
    assert("transmute"@.len() == 9);
    assert("size_of"@.len() == 7);
    assert("align_of"@.len() == 8);
    assert("new"@.len() == 3);
    assert("make"@.len() == 4);
    assert("drop"@.len() == 4);
    assert("len"@.len() == 3);
    assert("index"@.len() == 5);
    assert("embed_file"@.len() == 10);
    assert("trap"@.len() == 4);
    assert("assert"@.len() == 6);
    assert("wrapping_add"@.len() == 12);
    assert("wrapping_sub"@.len() == 12);
    assert("type_info"@.len() == 9);
    assert("type_id"@.len() == 7);
    assert("member_ptr"@.len() == 10);
    assert("gc_collect"@.len() == 10);
    assert("gc_keep_alive"@.len() == 13);
    assert("gc_pin"@.len() == 6);
    assert("cast"@[0] != "make"@[0]);
    assert("drop"@[0] != "make"@[0]);
    assert("trap"@[0] != "make"@[0]);
    assert("new"@[0] != "len"@[0]);
}

proof fn known_tags_have_rows(s: Seq<char>)
    requires
        is_known(s),
    ensures
        exists|i: u64| i < ROW_COUNT && (#[trigger] row_spec(i))->0.tag@ == s,
{
    assert(row_spec(0)->0.tag@ == "cast"@);
    assert(row_spec(1)->0.tag@ == "transmute"@);
    assert(row_spec(2)->0.tag@ == "size_of"@);
    assert(row_spec(3)->0.tag@ == "align_of"@);
    assert(row_spec(4)->0.tag@ == "new"@);
    assert(row_spec(5)->0.tag@ == "make"@);
    assert(row_spec(6)->0.tag@ == "drop"@);
    assert(row_spec(7)->0.tag@ == "len"@);
    assert(row_spec(8)->0.tag@ == "index"@);
    assert(row_spec(9)->0.tag@ == "embed_file"@);
    assert(row_spec(10)->0.tag@ == "trap"@);
    assert(row_spec(11)->0.tag@ == "assert"@);
    assert(row_spec(12)->0.tag@ == "wrapping_add"@);
    assert(row_spec(13)->0.tag@ == "wrapping_sub"@);
    assert(row_spec(14)->0.tag@ == "type_info"@);
    assert(row_spec(15)->0.tag@ == "type_id"@);
    assert(row_spec(16)->0.tag@ == "member_ptr"@);
    assert(row_spec(17)->0.tag@ == "gc_collect"@);
    assert(row_spec(18)->0.tag@ == "gc_keep_alive"@);
    assert(row_spec(19)->0.tag@ == "gc_pin"@);
}

/// The row for a tag, or none where the compiler has never heard of it.
pub fn lookup(tag: &str) -> (r: Option<IntrinsicRow>)
    ensures
        r == row_of_spec(&crate::symbol::sym_spec(tag)),
        r is Some <==> is_known(tag@),
        match r {
            Some(x) => x.tag@ == tag@ && x.special == rule_of(tag@),
            None => true,
        },
{
    let found = row_of(&sym(tag));
    proof {
        text_of_holds_the_string(tag@);
        match found {
            Some(x) => {
                let i = choose|i: u64| i < ROW_COUNT && #[trigger] row_spec(i) == Some(x);
                rows_follow_the_rule(i);
                text_of_holds_the_string(x.tag@);
            },
            None => {
                if is_known(tag@) {
                    known_tags_have_rows(tag@);
                    let i = choose|i: u64| i < ROW_COUNT && (#[trigger] row_spec(i))->0.tag@ == tag@;
                    rows_follow_the_rule(i);
                    assert(crate::symbol::sym_spec(tag) == crate::symbol::sym_spec(row_spec(i)->0.tag));
                }
            },
        }
    }
    found
}

/// [`special_rule`], as a mathematical function.
pub open spec fn special_rule_spec(tag: &Symbol) -> Option<Special> {
    match row_of_spec(tag) {
        Some(r) => r.special,
        None => None,
    }
}

/// The rule a tag's intrinsic needs.
pub fn special_rule(tag: &Symbol) -> (r: Option<Special>)
    ensures
        r == special_rule_spec(tag),
{
    match row_of(tag) {
        Some(r) => r.special,
        None => None,
    }
}

} // verus!
