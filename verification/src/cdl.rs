//! A circular doubly-linked list stored in one growable array.
//!
//! Nodes never move: a node is addressed by the index it was inserted at,
//! and the `next` / `prev` fields hold indices instead of pointers. The
//! well-formedness predicate [`CDL::wf`] states the link structure: every
//! node's neighbour pointers stay in bounds and are inverses of each other.

use vstd::prelude::*;

verus! {

/// One node of the list: a value and the indices of its two neighbours.
/// `index` is the node's own position in the backing array.
#[derive(Debug)]
pub struct CDLNode<T> {
    pub value: T,
    pub next: usize,
    pub prev: usize,
    pub index: usize,
}

/// One node's links are intact: it records its own position, points at
/// nodes that exist, and is its neighbours' neighbour.
pub open spec fn wf_at<T>(s: Seq<CDLNode<T>>, i: int) -> bool {
    &&& s[i].index == i
    &&& s[i].next < s.len()
    &&& s[i].prev < s.len()
    &&& s[s[i].next as int].prev == i
    &&& s[s[i].prev as int].next == i
}

/// Every node's links are intact.
pub open spec fn cdl_wf_seq<T>(s: Seq<CDLNode<T>>) -> bool {
    forall|i: int| 0 <= i < s.len() ==> wf_at(s, i)
}

/// How the backing array looks after a new node was spliced in behind
/// position `a`: the new node sits at the old length `k`, linked between
/// `a` and `a`'s old successor `n`, whose pointers now meet in the new
/// node; every other node is untouched. When `a` was its own successor
/// (a cycle of one), both of its pointers move to the new node.
pub open spec fn spliced_after<T>(
    pre: Seq<CDLNode<T>>,
    post: Seq<CDLNode<T>>,
    a: int,
    value: T,
) -> bool {
    let k = pre.len() as int;
    let n = pre[a].next as int;
    &&& post.len() == pre.len() + 1
    &&& post[k].value == value
    &&& post[k].index == k
    &&& post[k].prev == a
    &&& post[k].next == n
    &&& post[a].next == k
    &&& post[n].prev == k
    &&& post[a].value == pre[a].value
    &&& post[a].index == pre[a].index
    &&& post[n].value == pre[n].value
    &&& post[n].index == pre[n].index
    &&& a != n ==> post[a].prev == pre[a].prev && post[n].next == pre[n].next
    &&& a == n ==> post[a].prev == k && post[a].next == k
    &&& forall|i: int| 0 <= i < k && i != a && i != n ==> post[i] == pre[i]
}

/// Splicing a new node in behind any existing node preserves the link
/// structure.
proof fn lemma_wf_after_splice<T>(pre: Seq<CDLNode<T>>, post: Seq<CDLNode<T>>, a: int, value: T)
    requires
        cdl_wf_seq(pre),
        0 <= a < pre.len(),
        spliced_after(pre, post, a, value),
    ensures
        cdl_wf_seq(post),
{
    let k = pre.len() as int;
    let n = pre[a].next as int;
    assert(wf_at(pre, a));
    assert(wf_at(pre, n));
    assert forall|i: int| 0 <= i < post.len() implies wf_at(post, i) by {
        if i != a && i != n && i != k {
            assert(wf_at(pre, i));
            assert(wf_at(pre, pre[i].next as int));
            assert(wf_at(pre, pre[i].prev as int));
        } else {
            assert(wf_at(pre, pre[a].prev as int));
            assert(wf_at(pre, pre[n].next as int));
        }
    }
}

/// The circular doubly-linked list. The backing array only ever grows.
#[derive(Debug)]
pub struct CDL<T> {
    nodes: Vec<CDLNode<T>>,
}

impl<T> View for CDL<T> {
    type V = Seq<CDLNode<T>>;

    closed spec fn view(&self) -> Seq<CDLNode<T>> {
        self.nodes@
    }
}

impl<T> CDL<T> {
    /// The link structure of the whole list is intact.
    pub open spec fn wf(self) -> bool {
        cdl_wf_seq(self@)
    }

    /// An empty list.
    pub fn new() -> (r: CDL<T>)
        ensures
            r.wf(),
            r@.len() == 0,
    {
        CDL { nodes: Vec::new() }
    }

    /// Append `value` at the tail of the cycle (just before the head, node
    /// 0) and return its index. A first node forms a cycle with itself.
    pub fn add(&mut self, value: T) -> (index: usize)
        requires
            old(self).wf(),
        ensures
            final(self).wf(),
            index == old(self)@.len(),
            final(self)@.len() == old(self)@.len() + 1,
            old(self)@.len() == 0 ==> final(self)@[0].value == value && final(self)@[0].next == 0
                && final(self)@[0].prev == 0 && final(self)@[0].index == 0,
            old(self)@.len() > 0 ==> spliced_after(
                old(self)@,
                final(self)@,
                old(self)@[0].prev as int,
                value,
            ),
    {
        let index = self.nodes.len();
        if index == 0 {
            self.nodes.push(CDLNode { value, next: index, prev: index, index });
            proof {
                assert forall|i: int| 0 <= i < self@.len() implies wf_at(self@, i) by {
                    assert(self@[0].next == 0 && self@[0].prev == 0);
                }
            }
        } else {
            let head_idx: usize = 0;
            let tail_idx = self.nodes[head_idx].prev;
            proof {
                assert(wf_at(old(self)@, 0));
            }
            self.nodes.push(CDLNode { value, next: head_idx, prev: tail_idx, index });
            let head = &mut self.nodes[head_idx];
            head.prev = index;
            let tail = &mut self.nodes[tail_idx];
            tail.next = index;
            proof {
                assert(old(self)@[tail_idx as int].next == 0);
                lemma_wf_after_splice(old(self)@, self@, tail_idx as int, value);
            }
        }
        index
    }

    /// Insert `value` just after the node at `after_index` and return the
    /// new node's index, or `None` if no node sits at `after_index`.
    pub fn add_after_idx(&mut self, after_index: usize, value: T) -> (r: Option<usize>)
        requires
            old(self).wf(),
        ensures
            final(self).wf(),
            after_index >= old(self)@.len() ==> r == None::<usize> && *final(self) == *old(self),
            after_index < old(self)@.len() ==> {
                &&& r == Some(old(self)@.len() as usize)
                &&& spliced_after(old(self)@, final(self)@, after_index as int, value)
            },
    {
        if after_index >= self.nodes.len() {
            return None;
        }
        let new_index = self.insert_after(after_index, value);
        Some(new_index)
    }

    /// Insert `value` just after `after_node`, which must be a node of this
    /// list (it is identified by its recorded index), and return the new
    /// node's index.
    pub fn add_after_node(&mut self, after_node: &CDLNode<T>, value: T) -> (new_index: usize)
        requires
            old(self).wf(),
            after_node.index < old(self)@.len(),
        ensures
            final(self).wf(),
            new_index == old(self)@.len(),
            spliced_after(old(self)@, final(self)@, after_node.index as int, value),
    {
        let after_index = after_node.index;
        self.insert_after(after_index, value)
    }

    /// The splice shared by the two insertion operations.
    fn insert_after(&mut self, after_index: usize, value: T) -> (new_index: usize)
        requires
            old(self).wf(),
            after_index < old(self)@.len(),
        ensures
            final(self).wf(),
            new_index == old(self)@.len(),
            spliced_after(old(self)@, final(self)@, after_index as int, value),
    {
        proof {
            assert(wf_at(old(self)@, after_index as int));
        }
        let new_index = self.nodes.len();
        let next_index = self.nodes[after_index].next;
        self.nodes.push(CDLNode { value, next: next_index, prev: after_index, index: new_index });
        let after = &mut self.nodes[after_index];
        after.next = new_index;
        let next = &mut self.nodes[next_index];
        next.prev = new_index;
        proof {
            lemma_wf_after_splice(old(self)@, self@, after_index as int, value);
        }
        new_index
    }

    /// The node at `index`, or `None` if no node sits there.
    pub fn get_node(&self, index: usize) -> (r: Option<&CDLNode<T>>)
        ensures
            match r {
                Some(node) => index < self@.len() && *node == self@[index as int],
                None => index >= self@.len(),
            },
    {
        if index < self.nodes.len() {
            Some(&self.nodes[index])
        } else {
            None
        }
    }

    /// Exclusive access to the node at `index`, or `None` if no node sits
    /// there. The caller may change any field, so well-formedness holds
    /// afterwards only if the caller preserves the link structure — writing
    /// `value` alone always does.
    pub fn get_node_mut(&mut self, index: usize) -> (r: Option<&mut CDLNode<T>>)
        ensures
            match r {
                Some(node) => {
                    &&& index < old(self)@.len()
                    &&& *node == old(self)@[index as int]
                    &&& final(self)@ == old(self)@.update(index as int, *final(node))
                },
                None => index >= old(self)@.len() && *final(self) == *old(self),
            },
    {
        if index < self.nodes.len() {
            Some(&mut self.nodes[index])
        } else {
            None
        }
    }
}

} // verus!
