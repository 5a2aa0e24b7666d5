//! Finding the client window below a window.
//!
//! A window manager wraps the windows of its clients in frames, so the window
//! under the pointer is often a frame. The client window is the first window
//! that carries a state property, looking at the window itself and then at
//! its descendants, children before siblings. [`Search`] walks the tree one
//! question at a time: it says what to ask the server next and takes the
//! answer.

use crate::xproto::Window;
use vstd::prelude::*;

verus! {

/// A question to the server.
#[derive(Clone, Copy, Debug, PartialEq, Eq, Structural)]
pub enum Query {
    /// Does this window carry a state property?
    State(Window),
    /// Which children does this window have?
    Children(Window),
}

/// What a search does next.
#[derive(Clone, Copy, Debug, PartialEq, Eq)]
pub enum Step {
    /// The question that is to be asked.
    Ask(Query),
    /// The search has ended, with the client window if there is one.
    Done(Option<Window>),
}

/// An answer of the server.
pub enum Event {
    /// Whether the window carries a state property.
    State(bool),
    /// The children of the window, bottom first, or `None` where the server
    /// did not list them.
    Children(Option<Seq<Window>>),
}

/// The windows that a search has listed and not looked at yet, and what it
/// does next.
pub struct SearchView {
    /// For each window whose children are being looked at, outermost first:
    /// the children that are still to come.
    pub stack: Seq<Seq<Window>>,
    pub pending: Step,
}

/// The search that goes on with the windows still listed on `stack`: it asks
/// about the next child of the innermost window that has one left, and ends
/// without a client window when none is left.
pub open spec fn resume(stack: Seq<Seq<Window>>) -> SearchView
    decreases stack.len(),
{
    if stack.len() == 0 {
        SearchView { stack, pending: Step::Done(None) }
    } else if stack.last().len() == 0 {
        resume(stack.drop_last())
    } else {
        SearchView {
            stack: stack.drop_last().push(stack.last().skip(1)),
            pending: Step::Ask(Query::State(stack.last()[0])),
        }
    }
}

impl SearchView {
    /// The search that has just been started on `window`.
    pub open spec fn start(window: Window) -> SearchView {
        SearchView { stack: Seq::empty(), pending: Step::Ask(Query::State(window)) }
    }

    /// The search after `event` has arrived. An event that does not answer
    /// the pending question changes nothing.
    pub open spec fn next(self, event: Event) -> SearchView {
        match (self.pending, event) {
            (Step::Ask(Query::State(window)), Event::State(client)) => if client {
                SearchView { pending: Step::Done(Some(window)), ..self }
            } else {
                SearchView { pending: Step::Ask(Query::Children(window)), ..self }
            },
            (Step::Ask(Query::Children(_)), Event::Children(Some(children))) => resume(
                self.stack.push(children),
            ),
            (Step::Ask(Query::Children(_)), Event::Children(None)) => resume(self.stack),
            _ => self,
        }
    }
}

/// The children of one window, and how many of them have been looked at.
#[derive(Clone, Debug, PartialEq, Eq)]
struct Frame {
    children: Vec<Window>,
    next: usize,
}

impl Frame {
    /// The children that are still to come.
    closed spec fn rest(&self) -> Seq<Window> {
        if self.next <= self.children@.len() {
            self.children@.skip(self.next as int)
        } else {
            Seq::empty()
        }
    }
}

/// A search for the client window below a window.
#[derive(Clone, Debug, PartialEq, Eq)]
pub struct Search {
    stack: Vec<Frame>,
    pending: Step,
}

impl View for Search {
    type V = SearchView;

    closed spec fn view(&self) -> SearchView {
        SearchView {
            stack: Seq::new(self.stack@.len(), |i: int| self.stack@[i].rest()),
            pending: self.pending,
        }
    }
}

/// Starts the search for the client window below `window`. The first
/// question is whether `window` itself carries a state property.
pub fn client_window(window: Window) -> (search: Search)
    ensures
        search@ == SearchView::start(window),
{
    let search = Search { stack: Vec::new(), pending: Step::Ask(Query::State(window)) };
    proof {
        assert(search@.stack =~= Seq::empty());
    }
    search
}

impl Search {
    /// What to do next: the question to ask, or the result.
    pub fn pending(&self) -> (step: Step)
        ensures
            step == self@.pending,
    {
        self.pending
    }

    /// Takes the answer to a question about a state property.
    pub fn state_known(&mut self, client: bool)
        ensures
            final(self)@ == old(self)@.next(Event::State(client)),
    {
        match self.pending {
            Step::Ask(Query::State(window)) => {
                if client {
                    self.pending = Step::Done(Some(window));
                } else {
                    self.pending = Step::Ask(Query::Children(window));
                }
            },
            _ => {},
        }
    }

    /// Takes the answer to a question about children: the children, bottom
    /// first, or `None` where the server did not list them.
    pub fn children_known(&mut self, children: Option<Vec<Window>>)
        ensures
            final(self)@ == old(self)@.next(
                Event::Children(
                    match children {
                        Some(list) => Some(list@),
                        None => None,
                    },
                ),
            ),
    {
        match self.pending {
            Step::Ask(Query::Children(_)) => {
                let ghost before = self@.stack;
                match children {
                    Some(list) => {
                        let frame = Frame { children: list, next: 0 };
                        proof {
                            assert(frame.rest() =~= list@);
                        }
                        self.stack.push(frame);
                        proof {
                            assert(self@.stack =~= before.push(list@));
                        }
                    },
                    None => {},
                }
                self.resume();
            },
            _ => {},
        }
    }

    /// Goes on with the windows that are still listed.
    fn resume(&mut self)
        ensures
            final(self)@ == resume(old(self)@.stack),
    {
        while self.stack.len() > 0
            invariant
                resume(self@.stack) == resume(old(self)@.stack),
            decreases self.stack.len(),
        {
            let ghost before = self@.stack;
            let mut frame = self.stack.pop().unwrap();
            proof {
                assert(self@.stack =~= before.drop_last());
                assert(frame.rest() == before.last());
            }
            if frame.next < frame.children.len() {
                let child = frame.children[frame.next];
                let ghost rest = frame.rest();
                frame.next = frame.next + 1;
                proof {
                    assert(frame.rest() =~= rest.skip(1));
                    assert(child == rest[0]);
                }
                self.stack.push(frame);
                self.pending = Step::Ask(Query::State(child));
                proof {
                    assert(self@.stack =~= before.drop_last().push(before.last().skip(1)));
                }
                return ;
            }
        }
        self.pending = Step::Done(None);
        proof {
            assert(self@.stack =~= Seq::empty());
        }
    }
}

/// A window with the windows below it, as the server would describe them.
pub struct Tree {
    pub window: Window,
    /// Whether the window carries a state property.
    pub client: bool,
    /// Whether the server lists the children of the window.
    pub listable: bool,
    /// The children, bottom first.
    pub children: Seq<Tree>,
}

/// The windows at the roots of `trees`.
pub open spec fn windows(trees: Seq<Tree>) -> Seq<Window> {
    Seq::new(trees.len(), |i: int| trees[i].window)
}

/// The client window of `tree`: the window itself if it carries a state
/// property, else the first client window among its listed children.
pub open spec fn found(tree: Tree) -> Option<Window>
    decreases tree, 0nat,
{
    if tree.client {
        Some(tree.window)
    } else if tree.listable {
        found_from(tree.children, 0)
    } else {
        None
    }
}

/// The client window of the first of `trees[from..]` that has one.
pub open spec fn found_from(trees: Seq<Tree>, from: nat) -> Option<Window>
    decreases trees, trees.len() - from,
{
    if from >= trees.len() {
        None
    } else if found(trees[from as int]) is Some {
        found(trees[from as int])
    } else {
        found_from(trees, from + 1)
    }
}

/// The questions that a search of `tree` asks, each with the answer that
/// `tree` gives, in order.
pub open spec fn dialogue(tree: Tree) -> Seq<(Query, Event)>
    decreases tree, 0nat,
{
    let state = seq![(Query::State(tree.window), Event::State(tree.client))];
    if tree.client {
        state
    } else if tree.listable {
        state.push(
            (Query::Children(tree.window), Event::Children(Some(windows(tree.children)))),
        ) + dialogue_from(tree.children, 0)
    } else {
        state.push((Query::Children(tree.window), Event::Children(None)))
    }
}

/// The questions and answers of a search of `trees[from..]`, which ends with
/// the first tree that has a client window.
pub open spec fn dialogue_from(trees: Seq<Tree>, from: nat) -> Seq<(Query, Event)>
    decreases trees, trees.len() - from,
{
    if from >= trees.len() {
        Seq::empty()
    } else if found(trees[from as int]) is Some {
        dialogue(trees[from as int])
    } else {
        dialogue(trees[from as int]) + dialogue_from(trees, from + 1)
    }
}

/// The search after it was given the answers of `talk`, one after the other.
pub open spec fn after(search: SearchView, talk: Seq<(Query, Event)>) -> SearchView
    decreases talk.len(),
{
    if talk.len() == 0 {
        search
    } else {
        after(search.next(talk[0].1), talk.skip(1))
    }
}

/// `true` when the search, given the answers of `talk` one after the other,
/// asks exactly the questions of `talk`.
pub open spec fn asks(search: SearchView, talk: Seq<(Query, Event)>) -> bool
    decreases talk.len(),
{
    if talk.len() == 0 {
        true
    } else {
        search.pending == Step::Ask(talk[0].0) && asks(search.next(talk[0].1), talk.skip(1))
    }
}

/// Two dialogues in a row are one dialogue.
proof fn talk_in_a_row(search: SearchView, first: Seq<(Query, Event)>, second: Seq<(Query, Event)>)
    ensures
        after(search, first + second) == after(after(search, first), second),
        asks(search, first + second) == (asks(search, first) && asks(
            after(search, first),
            second,
        )),
    decreases first.len(),
{
    if first.len() == 0 {
        assert(first + second =~= second);
    } else {
        let whole = first + second;
        assert(whole[0] == first[0]);
        assert(whole.skip(1) =~= first.skip(1) + second);
        talk_in_a_row(search.next(first[0].1), first.skip(1), second);
    }
}

/// A search that asks about the root of `tree` walks the tree: it ends with
/// the client window of the tree, or goes on with what was listed before.
proof fn walk_tree(tree: Tree, stack: Seq<Seq<Window>>)
    ensures
        ({
            let search = SearchView { stack, pending: Step::Ask(Query::State(tree.window)) };
            &&& asks(search, dialogue(tree))
            &&& found(tree) is Some ==> after(search, dialogue(tree)).pending == Step::Done(
                found(tree),
            )
            &&& found(tree) is None ==> after(search, dialogue(tree)) == resume(stack)
        }),
    decreases tree, 0nat,
{
    let search = SearchView { stack, pending: Step::Ask(Query::State(tree.window)) };
    let state = seq![(Query::State(tree.window), Event::State(tree.client))];
    let asked = search.next(Event::State(tree.client));
    assert(state.skip(1) =~= Seq::<(Query, Event)>::empty());
    assert(after(search, state) == asked) by {
        assert(after(asked, state.skip(1)) == asked);
    }
    assert(asks(search, state)) by {
        assert(asks(asked, state.skip(1)));
    }
    if tree.client {
    } else {
        let answer = if tree.listable {
            Event::Children(Some(windows(tree.children)))
        } else {
            Event::Children(None)
        };
        let listing = seq![(Query::Children(tree.window), answer)];
        let listed = asked.next(answer);
        assert(listing.skip(1) =~= Seq::<(Query, Event)>::empty());
        assert(after(asked, listing) == listed) by {
            assert(after(listed, listing.skip(1)) == listed);
        }
        assert(asks(asked, listing)) by {
            assert(asks(listed, listing.skip(1)));
        }
        assert(state.push((Query::Children(tree.window), answer)) =~= state + listing);
        talk_in_a_row(search, state, listing);
        if tree.listable {
            let names = windows(tree.children);
            assert(names.skip(0) =~= names);
            assert(listed == resume(stack.push(names.skip(0))));
            walk_trees(tree.children, 0, stack);
            talk_in_a_row(search, state + listing, dialogue_from(tree.children, 0));
        } else {
            assert(listed == resume(stack));
        }
    }
}

/// A search that goes on with the roots of `trees[from..]` walks these trees
/// in order: it ends with the first client window among them, or goes on
/// with what was listed before.
proof fn walk_trees(trees: Seq<Tree>, from: nat, stack: Seq<Seq<Window>>)
    requires
        from <= trees.len(),
    ensures
        ({
            let search = resume(stack.push(windows(trees).skip(from as int)));
            let talk = dialogue_from(trees, from);
            &&& asks(search, talk)
            &&& found_from(trees, from) is Some ==> after(search, talk).pending == Step::Done(
                found_from(trees, from),
            )
            &&& found_from(trees, from) is None ==> after(search, talk) == resume(stack)
        }),
    decreases trees, trees.len() - from,
{
    let rest = windows(trees).skip(from as int);
    let listed = stack.push(rest);
    assert(listed.drop_last() =~= stack);
    assert(listed.last() == rest);
    if from >= trees.len() {
        assert(rest.len() == 0);
    } else {
        let tree = trees[from as int];
        let later = windows(trees).skip(from as int + 1);
        assert(rest[0] == tree.window);
        assert(rest.skip(1) =~= later);
        let above = stack.push(later);
        assert(resume(listed) == SearchView {
            stack: above,
            pending: Step::Ask(Query::State(tree.window)),
        });
        walk_tree(tree, above);
        if found(tree) is None {
            walk_trees(trees, from + 1, stack);
            talk_in_a_row(resume(listed), dialogue(tree), dialogue_from(trees, from + 1));
        }
    }
}

/// The windows of `tree` that a search can reach, each with whether it
/// carries a state property: every window before its children, and the
/// children bottom first.
pub open spec fn preorder(tree: Tree) -> Seq<(Window, bool)>
    decreases tree, 0nat,
{
    let root = seq![(tree.window, tree.client)];
    if tree.listable {
        root + preorder_from(tree.children, 0)
    } else {
        root
    }
}

/// The windows of `trees[from..]` that a search can reach, tree after tree.
pub open spec fn preorder_from(trees: Seq<Tree>, from: nat) -> Seq<(Window, bool)>
    decreases trees, trees.len() - from,
{
    if from >= trees.len() {
        Seq::empty()
    } else {
        preorder(trees[from as int]) + preorder_from(trees, from + 1)
    }
}

/// The first window of `list` that carries a state property.
pub open spec fn first_client(list: Seq<(Window, bool)>) -> Option<Window>
    decreases list.len(),
{
    if list.len() == 0 {
        None
    } else if list[0].1 {
        Some(list[0].0)
    } else {
        first_client(list.skip(1))
    }
}

/// The first client of two lists in a row is that of the first list, or that
/// of the second where the first has none.
proof fn first_client_in_a_row(first: Seq<(Window, bool)>, second: Seq<(Window, bool)>)
    ensures
        first_client(first + second) == if first_client(first) is Some {
            first_client(first)
        } else {
            first_client(second)
        },
    decreases first.len(),
{
    if first.len() == 0 {
        assert(first + second =~= second);
    } else {
        assert((first + second)[0] == first[0]);
        assert((first + second).skip(1) =~= first.skip(1) + second);
        first_client_in_a_row(first.skip(1), second);
    }
}

/// The client window of a tree is the first window in reach that carries a
/// state property.
pub proof fn found_is_first_in_preorder(tree: Tree)
    ensures
        found(tree) == first_client(preorder(tree)),
    decreases tree, 0nat,
{
    let root = seq![(tree.window, tree.client)];
    assert(root.skip(1) =~= Seq::<(Window, bool)>::empty());
    assert(first_client(root) == if tree.client {
        Some(tree.window)
    } else {
        None
    }) by {
        assert(first_client(root.skip(1)) is None);
    }
    if tree.listable {
        found_from_is_first_in_preorder(tree.children, 0);
        first_client_in_a_row(root, preorder_from(tree.children, 0));
    }
}

/// The client window of a row of trees is the first window in reach that
/// carries a state property.
proof fn found_from_is_first_in_preorder(trees: Seq<Tree>, from: nat)
    ensures
        found_from(trees, from) == first_client(preorder_from(trees, from)),
    decreases trees, trees.len() - from,
{
    if from < trees.len() {
        found_is_first_in_preorder(trees[from as int]);
        found_from_is_first_in_preorder(trees, from + 1);
        first_client_in_a_row(preorder(trees[from as int]), preorder_from(trees, from + 1));
    }
}

/// A search that is given the answers of a tree asks about the windows of
/// the tree in order, each before its children and the children bottom
/// first, and ends with the first window that carries a state property, or
/// without one where the tree has none.
pub proof fn search_finds_first_client(tree: Tree)
    ensures
        asks(SearchView::start(tree.window), dialogue(tree)),
        after(SearchView::start(tree.window), dialogue(tree)).pending == Step::Done(found(tree)),
        found(tree) == first_client(preorder(tree)),
{
    walk_tree(tree, Seq::empty());
    found_is_first_in_preorder(tree);
}

} // verus!
