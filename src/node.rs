use vstd::prelude::*;
use vstd::string::StringExecFns;
use vstd::utf8::encode_utf8;

use crate::error::WzError;
use crate::value::{bytes_view, decodable, encode_path, read_name, text_of};

verus! {

/// The diagnostic path of a child named `rel` under a node whose path is
/// `parent`: the two joined by a slash.
pub open spec fn join_path(parent: Seq<char>, rel: Seq<char>) -> Seq<char> {
    parent + seq!['/'] + rel
}

/// True when `path` can be handed to the native resolver: it is not empty
/// and holds no NUL byte.
pub open spec fn resolvable(path: Seq<char>) -> bool {
    path.len() > 0 && !encode_utf8(path).contains(0u8)
}

/// The name a child takes in its diagnostic path, from the native reply to
/// a name query: the decoded name, or the empty name when it cannot be
/// decoded.
pub open spec fn child_name(raw: Option<Seq<u8>>) -> Seq<char> {
    if decodable(raw) {
        text_of(raw)
    } else {
        Seq::empty()
    }
}

/// One position in an archive's tree. It owns the native handle `H` of that
/// position, which is released when the node is dropped, and keeps the
/// diagnostic path from the root.
pub struct WzNode<H> {
    handle: H,
    path: Option<String>,
}

impl<H> WzNode<H> {
    /// An iterator over the node's children, for a node whose length
    /// (taken once, now) is `len`.
    pub fn iter(&self, len: u32) -> (r: WzNodeIter<'_, H>)
        ensures
            r.spec_base() == self,
            r.spec_len() == len,
            r.pending() == steps(0, len),
    {
        WzNodeIter::new(self, len)
    }

    /// The native handle the node owns.
    pub closed spec fn native(&self) -> H {
        self.handle
    }

    /// The node's diagnostic path, if it has one.
    pub closed spec fn spec_path(&self) -> Option<Seq<char>> {
        match self.path {
            Some(p) => Some(p@),
            None => None,
        }
    }

    /// The node's diagnostic path, empty when it has none.
    pub open spec fn path_view(&self) -> Seq<char> {
        match self.spec_path() {
            Some(p) => p,
            None => Seq::empty(),
        }
    }

    /// The diagnostic path from the root to this node.
    pub fn path(&self) -> (r: Option<&str>)
        ensures
            r is Some <==> self.spec_path() is Some,
            r matches Some(p) ==> self.spec_path() == Some(p@),
    {
        match &self.path {
            Some(p) => Some(p.as_str()),
            None => None,
        }
    }

    pub fn new(pointer: H, path: &str) -> (r: Self)
        ensures
            r.native() == pointer,
            r.spec_path() == Some(path@),
    {
        WzNode { handle: pointer, path: Some(path.to_owned()) }
    }

    /// The native handle the node owns, for the queries made on it.
    pub fn handle(&self) -> (r: &H)
        ensures
            *r == self.native(),
    {
        &self.handle
    }

    /// The diagnostic path of the node's descendant at relative path `rel`.
    pub fn child_path(&self, rel: &str) -> (r: String)
        ensures
            r@ == join_path(self.path_view(), rel@),
    {
        let mut s = match &self.path {
            Some(p) => p.clone(),
            None => String::new(),
        };
        proof {
            reveal_strlit("/");
        }
        s.append("/");
        s.append(rel);
        s
    }

    /// The key under which the native layer resolves relative path `path`:
    /// its bytes and a terminating NUL. An empty path or one that holds a
    /// NUL byte names no descendant, and has no key.
    pub fn lookup_key(path: &str) -> (r: Option<Vec<u8>>)
        ensures
            r is Some <==> resolvable(path@),
            r matches Some(k) ==> k@ == encode_utf8(path@).push(0u8),
    {
        if path.is_empty() {
            return None;
        }
        match encode_path(path) {
            Ok(k) => Some(k),
            Err(_) => None,
        }
    }

    /// The descendant at relative path `path`, given the handle the native
    /// resolver returned for its key (`None` when it found nothing). The
    /// descendant's diagnostic path is this node's path joined to `path`,
    /// however many segments `path` has.
    pub fn child(&self, path: &str, opened: Option<H>) -> (r: Option<WzNode<H>>)
        ensures
            r is Some <==> (resolvable(path@) && opened is Some),
            r matches Some(n) ==> {
                &&& opened matches Some(h) && n.native() == h
                &&& n.spec_path() == Some(join_path(self.path_view(), path@))
            },
    {
        if Self::lookup_key(path).is_none() {
            return None;
        }
        match opened {
            Some(h) => Some(WzNode { handle: h, path: Some(self.child_path(path)) }),
            None => None,
        }
    }

    /// The child at index `i` of a node with `len` children, given the
    /// handle the native layer returned for that index and its reply to the
    /// child's name query. There is no child at an index past the length.
    /// A name that cannot be decoded leaves the child reachable, with an
    /// empty name in its diagnostic path.
    pub fn child_at(&self, i: u32, len: u32, opened: Option<H>, name: &Option<Vec<u8>>) -> (r:
        Option<WzNode<H>>)
        ensures
            r is Some <==> (i < len && opened is Some),
            r matches Some(n) ==> {
                &&& opened matches Some(h) && n.native() == h
                &&& n.spec_path() == Some(
                    join_path(self.path_view(), child_name(bytes_view(name))),
                )
            },
    {
        if i >= len {
            return None;
        }
        match opened {
            Some(h) => {
                let child_path = match read_name(name) {
                    Ok(n) => self.child_path(n.as_str()),
                    Err(_) => self.child_path(""),
                };
                proof {
                    reveal_strlit("");
                }
                Some(WzNode { handle: h, path: Some(child_path) })
            },
            None => None,
        }
    }
}

/// The child indices that remain to be visited by an iterator standing at
/// `index` over a node of length `len`: those from `index` up to `len`, in
/// order.
pub open spec fn steps(index: u32, len: u32) -> Seq<u32>
    decreases len - index,
{
    if index < len {
        seq![index] + steps((index + 1) as u32, len)
    } else {
        Seq::empty()
    }
}

/// The indices still to visit, from `index` on, are `index`, `index + 1`,
/// ... up to `len`, each once.
pub proof fn lemma_steps_range(index: u32, len: u32)
    ensures
        index <= len ==> steps(index, len) == Seq::new(
            (len - index) as nat,
            |k: int| (index + k) as u32,
        ),
        index >= len ==> steps(index, len).len() == 0,
    decreases len - index,
{
    if index < len {
        lemma_steps_range((index + 1) as u32, len);
        assert(steps(index, len) =~= Seq::new((len - index) as nat, |k: int| (index + k) as u32));
    }
}

/// A forward walk over a node's children by index. The length is taken once
/// when the iterator is made; each step names one index to open, and a
/// child that cannot be opened ends the walk.
pub struct WzNodeIter<'a, H> {
    base: &'a WzNode<H>,
    index: u32,
    len: u32,
}

impl<'a, H> WzNodeIter<'a, H> {
    #[verifier::type_invariant]
    spec fn inv(&self) -> bool {
        self.index <= self.len
    }

    pub closed spec fn spec_base(&self) -> &'a WzNode<H> {
        self.base
    }

    pub closed spec fn spec_index(&self) -> u32 {
        self.index
    }

    pub closed spec fn spec_len(&self) -> u32 {
        self.len
    }

    /// The child indices this iterator has still to visit.
    pub open spec fn pending(&self) -> Seq<u32> {
        steps(self.spec_index(), self.spec_len())
    }

    pub fn new(base: &'a WzNode<H>, len: u32) -> (r: Self)
        ensures
            r.spec_base() == base,
            r.spec_len() == len,
            r.pending() == steps(0, len),
    {
        WzNodeIter { base, index: 0, len }
    }

    /// The node whose children are walked.
    pub fn base(&self) -> (r: &'a WzNode<H>)
        ensures
            r == self.spec_base(),
    {
        self.base
    }

    /// The number of children still to visit.
    pub fn remaining(&self) -> (r: u32)
        ensures
            r == self.pending().len(),
    {
        proof {
            use_type_invariant(self);
            lemma_steps_range(self.index, self.len);
        }
        self.len - self.index
    }

    /// The index of the next child to open, or `None` when every index has
    /// been visited.
    pub fn next_index(&mut self) -> (r: Option<u32>)
        ensures
            final(self).spec_base() == old(self).spec_base(),
            final(self).spec_len() == old(self).spec_len(),
            r is Some <==> old(self).pending().len() > 0,
            r matches Some(i) ==> i == old(self).pending()[0] && final(self).pending()
                == old(self).pending().drop_first(),
            r is None ==> final(self).pending().len() == 0,
    {
        proof {
            use_type_invariant(&*self);
            lemma_steps_range(self.index, self.len);
        }
        if self.index < self.len {
            let i = self.index;
            self.index = self.index + 1;
            Some(i)
        } else {
            None
        }
    }

    /// Takes the outcome of opening the index that `next_index` named and
    /// returns it. A child that could not be opened ends the walk.
    pub fn accept(&mut self, child: Option<WzNode<H>>) -> (r: Option<WzNode<H>>)
        ensures
            r == child,
            final(self).spec_base() == old(self).spec_base(),
            final(self).spec_len() == old(self).spec_len(),
            r is Some ==> final(self).pending() == old(self).pending(),
            r is None ==> final(self).pending().len() == 0,
    {
        proof {
            use_type_invariant(&*self);
        }
        if child.is_none() {
            self.index = self.len;
        }
        child
    }
}

/// The native context through which archives are opened. It owns the native
/// context handle `H` and must outlive every archive opened through it.
pub struct WzCtx<H> {
    pointer: H,
}

impl<H> WzCtx<H> {
    pub closed spec fn native(&self) -> H {
        self.pointer
    }

    /// A context from the native initialisation's reply: `None` stands for a
    /// null handle, and fails with `InitError`.
    pub fn new(pointer: Option<H>) -> (r: Result<Self, WzError>)
        ensures
            r is Ok <==> pointer is Some,
            r matches Ok(c) ==> pointer == Some(c.native()),
            r matches Err(e) ==> e == WzError::InitError,
    {
        match pointer {
            Some(p) => Ok(WzCtx { pointer: p }),
            None => Err(WzError::InitError),
        }
    }

    /// The native context handle, for the native open call.
    pub fn handle(&self) -> (r: &H)
        ensures
            *r == self.native(),
    {
        &self.pointer
    }

    /// What opening an archive gives when the native open call returned
    /// `opened`: it does not depend on the archives opened before.
    pub open spec fn open_outcome<F>(&self, opened: Option<F>) -> Result<F, WzError> {
        match opened {
            Some(f) => Ok(f),
            None => Err(WzError::OpenFailed),
        }
    }

    /// The archive opened at a path, given the handle the native open call
    /// returned for the path's key (see `encode_path`). `None` stands for a
    /// null handle: a missing file, a bad header or version.
    pub fn open_file<F>(&self, opened: Option<F>) -> (r: Result<WzFile<F>, WzError>)
        ensures
            r matches Ok(f) ==> self.open_outcome(opened) == Ok::<F, WzError>(f.native()),
            r matches Err(e) ==> self.open_outcome(opened) == Err::<F, WzError>(e),
    {
        match opened {
            Some(f) => Ok(WzFile::new(f)),
            None => Err(WzError::OpenFailed),
        }
    }
}

/// One opened archive. It owns the native file handle `H`; every node
/// opened from it must be released before it is.
pub struct WzFile<H> {
    pointer: H,
}

impl<H> WzFile<H> {
    pub closed spec fn native(&self) -> H {
        self.pointer
    }

    pub fn new(pointer: H) -> (r: Self)
        ensures
            r.native() == pointer,
    {
        WzFile { pointer }
    }

    /// The native file handle, for the native root query.
    pub fn handle(&self) -> (r: &H)
        ensures
            *r == self.native(),
    {
        &self.pointer
    }

    /// The archive's root node, given the native root query's reply (`None`
    /// for a corrupt header). The root's diagnostic path is empty.
    pub fn open_root<N>(&self, opened: Option<N>) -> (r: Result<WzNode<N>, WzError>)
        ensures
            r is Ok <==> opened is Some,
            r matches Ok(n) ==> opened == Some(n.native()) && n.spec_path() == Some(
                Seq::<char>::empty(),
            ),
            r matches Err(e) ==> e == WzError::OpenFailed,
    {
        match opened {
            Some(root) => {
                proof {
                    reveal_strlit("");
                }
                Ok(WzNode::new(root, ""))
            },
            None => Err(WzError::OpenFailed),
        }
    }
}

} // verus!
