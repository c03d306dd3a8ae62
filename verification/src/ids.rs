//! The small identifiers every table is keyed by.

use vstd::prelude::*;

verus! {

/// A source file.
#[derive(Debug, Clone, Copy, PartialEq, Eq, Structural)]
pub struct FileId(pub u32);

/// A node of one file's tree.
#[derive(Debug, Clone, Copy, PartialEq, Eq, Structural)]
pub struct NodeId(pub u32);

/// A definition.
#[derive(Debug, Clone, Copy, PartialEq, Eq, Structural)]
pub struct DefId(pub u32);

/// A node of the lowered program.
#[derive(Debug, Clone, Copy, PartialEq, Eq, Structural)]
pub struct IrId(pub u64);

/// A stretch of one file's text, in bytes.
#[derive(Debug, Clone, Copy, PartialEq, Eq, Structural)]
pub struct Span {
    pub start: u32,
    pub end: u32,
}

/// A span together with the file it lies in.
#[derive(Debug, Clone, Copy, PartialEq, Eq, Structural)]
pub struct FileSpan {
    pub file: FileId,
    pub span: Span,
}

/// The key a table files a node's facts under.
pub open spec fn node_key_spec(file: FileId, node: NodeId) -> u64 {
    (file.0 * 0x1_0000_0000 + node.0) as u64
}

/// The key a table files a node's facts under.
pub fn node_key(file: FileId, node: NodeId) -> (r: u64)
    ensures
        r == node_key_spec(file, node),
{
    file.0 as u64 * 0x1_0000_0000u64 + node.0 as u64
}

/// No two nodes share a key, whatever files they are in.
pub proof fn node_key_is_injective(f1: FileId, n1: NodeId, f2: FileId, n2: NodeId)
    requires
        node_key_spec(f1, n1) == node_key_spec(f2, n2),
    ensures
        f1 == f2,
        n1 == n2,
{
}

/// [`def_key`], as a mathematical function.
pub open spec fn def_key_spec(def: DefId) -> u64 {
    def.0 as u64
}

/// The key a table files a definition under.
pub fn def_key(def: DefId) -> (r: u64)
    ensures
        r == def_key_spec(def),
{
    def.0 as u64
}

/// [`file_key`], as a mathematical function.
pub open spec fn file_key_spec(file: FileId) -> u64 {
    file.0 as u64
}

/// The key a table files a file under.
pub fn file_key(file: FileId) -> (r: u64)
    ensures
        r == file_key_spec(file),
{
    file.0 as u64
}

/// [`node_at`], as a mathematical function.
pub open spec fn node_at_spec(i: u64) -> NodeId {
    if i < 0xffff_ffff {
        NodeId(i as u32)
    } else {
        NodeId(0xffff_ffff)
    }
}

/// The node at a position of a tree.
pub fn node_at(i: u64) -> (r: NodeId)
    ensures
        r == node_at_spec(i),
{
    if i < 0xffff_ffff {
        NodeId(i as u32)
    } else {
        NodeId(0xffff_ffff)
    }
}

/// [`def_at`], as a mathematical function.
pub open spec fn def_at_spec(i: u64) -> DefId {
    if i < 0xffff_ffff {
        DefId(i as u32)
    } else {
        DefId(0xffff_ffff)
    }
}

/// The definition at a position of the table.
pub fn def_at(i: u64) -> (r: DefId)
    ensures
        r == def_at_spec(i),
{
    if i < 0xffff_ffff {
        DefId(i as u32)
    } else {
        DefId(0xffff_ffff)
    }
}

} // verus!
