//! Commit and tree identifiers.

use vstd::prelude::*;

verus! {

/// A git object id, held as its hexadecimal spelling.
#[derive(Clone, Debug, PartialEq, Eq)]
pub struct Oid {
    pub hex: String,
}

impl View for Oid {
    type V = Seq<char>;

    open spec fn view(&self) -> Seq<char> {
        self.hex@
    }
}

impl Oid {
    /// An id from its hexadecimal spelling.
    pub fn new(hex: String) -> (o: Oid)
        ensures
            o@ == hex@,
    {
        Oid { hex }
    }

    /// Whether two ids are the same.
    pub fn same(&self, other: &Oid) -> (b: bool)
        ensures
            b == (self@ == other@),
    {
        self.hex == other.hex
    }

    /// A copy of this id.
    pub fn duplicate(&self) -> (o: Oid)
        ensures
            o@ == self@,
            o == *self,
    {
        Oid { hex: self.hex.clone() }
    }
}

/// A row of the commit list: a real commit, or one of the two synthetic rows
/// for the working tree.
#[derive(Clone, Debug, PartialEq, Eq)]
pub enum VirtualOid {
    /// Changes staged in the index.
    Staged,
    /// Changes in the working tree not yet staged.
    Unstaged,
    /// A real commit.
    Real(Oid),
}

impl VirtualOid {
    /// Whether the row stands for working-tree changes rather than a commit.
    pub fn is_synthetic(&self) -> (b: bool)
        ensures
            b == !(self is Real),
    {
        !matches!(self, VirtualOid::Real(_))
    }

    /// The commit id of a real row.
    pub fn expect_real_oid(&self) -> (o: Oid)
        requires
            self is Real,
        ensures
            o@ == self->Real_0@,
            o == self->Real_0,
    {
        match self {
            VirtualOid::Real(o) => o.duplicate(),
            _ => {
                proof { assert(false); }
                Oid { hex: String::new() }
            }
        }
    }

    /// The commit id, if the row is a real commit.
    pub fn as_oid(&self) -> (o: Option<Oid>)
        ensures
            o is Some <==> self is Real,
            o is Some ==> o->Some_0@ == self->Real_0@ && o->Some_0 == self->Real_0,
    {
        match self {
            VirtualOid::Real(o) => Some(o.duplicate()),
            _ => None,
        }
    }
}

/// A copy of a list of ids.
pub fn duplicate_oids(v: &Vec<Oid>) -> (r: Vec<Oid>)
    ensures
        r@ == v@,
{
    let mut r: Vec<Oid> = Vec::new();
    let mut i: usize = 0;
    while i < v.len()
        invariant
            i <= v@.len(),
            r@ == v@.take(i as int),
        decreases v@.len() - i,
    {
        r.push(v[i].duplicate());
        assert(r@ =~= v@.take(i + 1));
        i = i + 1;
    }
    assert(v@.take(v@.len() as int) =~= v@);
    r
}

/// A copy of a list of strings.
pub fn duplicate_strings(v: &Vec<String>) -> (r: Vec<String>)
    ensures
        r@ == v@,
{
    let mut r: Vec<String> = Vec::new();
    let mut i: usize = 0;
    while i < v.len()
        invariant
            i <= v@.len(),
            r@ == v@.take(i as int),
        decreases v@.len() - i,
    {
        r.push(v[i].clone());
        assert(r@ =~= v@.take(i + 1));
        i = i + 1;
    }
    assert(v@.take(v@.len() as int) =~= v@);
    r
}

/// What the library knows of a commit shown in the list.
#[derive(Clone, Debug)]
pub struct CommitInfo {
    pub oid: VirtualOid,
    pub summary: String,
    pub message: String,
}

/// The list row of the staged or unstaged changes: `summary` is both its
/// summary and its message.
pub fn synthetic_commit_info(oid: VirtualOid, summary: &str) -> (c: CommitInfo)
    ensures
        c.oid == oid,
        c.summary@ == summary@,
        c.message@ == summary@,
{
    CommitInfo { oid, summary: summary.to_owned(), message: summary.to_owned() }
}

} // verus!
