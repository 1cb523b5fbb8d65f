//! A walk over a tree of directories that can be taken up again at any time:
//! the directories that have been entered and not left stand on a stack.
use vstd::prelude::*;

verus! {

/// The directories on the way to the present one, each with what is left to
/// visit in it.
#[derive(Debug)]
pub struct Stack<T>(pub Vec<T>);

impl<T> View for Stack<T> {
    type V = Seq<T>;

    open spec fn view(&self) -> Seq<T> {
        self.0@
    }
}

impl<T> Default for Stack<T> {
    fn default() -> (stack: Self)
        ensures
            stack@ == Seq::<T>::empty(),
    {
        Stack(Vec::new())
    }
}

/// What a visit to the next directory has to do next.
#[derive(Copy, Clone, Debug, PartialEq, Eq, Structural)]
pub enum WalkStep {
    /// Open the root of the tree.
    OpenRoot,
    /// Go on in the directory on top of the stack.
    Advance,
    /// Nothing: a directory was entered.
    Entered,
}

/// The first thing to do: where the stack is empty, the walk begins anew.
pub open spec fn first_step<T>(stack: Seq<T>) -> WalkStep {
    if stack.len() == 0 {
        WalkStep::OpenRoot
    } else {
        WalkStep::Advance
    }
}

/// The stack once the directory on top gave up its next subdirectory, which is
/// entered, or had none left, and is left; and what to do then.
pub open spec fn advanced_to<T>(stack: Seq<T>, subdir: Option<T>) -> (Seq<T>, WalkStep) {
    match subdir {
        Some(subdir) => (stack.push(subdir), WalkStep::Entered),
        None => (stack.drop_last(), first_step(stack.drop_last())),
    }
}

impl<T> Stack<T> {
    pub fn get(&mut self) -> (items: &mut Vec<T>)
        ensures
            items@ == old(self)@,
            final(self)@ == final(items)@,
    {
        &mut self.0
    }

    /// Begins a visit to the next directory.
    pub fn begin(&self) -> (step: WalkStep)
        ensures
            step == first_step(self@),
    {
        if self.0.len() == 0 {
            WalkStep::OpenRoot
        } else {
            WalkStep::Advance
        }
    }

    /// The root was opened; `root` is what is to be visited in it.
    pub fn root_opened(&mut self, root: T) -> (step: WalkStep)
        ensures
            final(self)@ == old(self)@.push(root),
            step == WalkStep::Advance,
    {
        self.get().push(root);
        WalkStep::Advance
    }

    /// The directory on top gave up its next subdirectory, which is entered,
    /// or had none left, and is left.
    pub fn advanced(&mut self, subdir: Option<T>) -> (step: WalkStep)
        requires
            old(self)@.len() > 0,
        ensures
            (final(self)@, step) == advanced_to(old(self)@, subdir),
    {
        match subdir {
            Some(subdir) => {
                self.get().push(subdir);
                WalkStep::Entered
            },
            None => {
                self.get().pop();
                self.begin()
            },
        }
    }
}

/// The stack and the next step in the course of a visit: the directories on
/// top gave up these subdirectories, one after the other, and `root` is what
/// the root held if it had to be opened.
pub open spec fn visited<T>(stack: Seq<T>, root: T, subdirs: Seq<Option<T>>) -> (Seq<T>, WalkStep)
    decreases subdirs.len(),
{
    let (reached, step) = if subdirs.len() == 0 {
        (stack, first_step(stack))
    } else {
        advanced_to(visited(stack, root, subdirs.drop_last()).0, subdirs.last())
    };
    if step is OpenRoot {
        (reached.push(root), WalkStep::Advance)
    } else {
        (reached, step)
    }
}

/// What is on the stack once this many directories were left: the way to the
/// innermost one that may have something left, and where there is none, the
/// root that was opened.
pub open spec fn way_back<T>(stack: Seq<T>, root: T, left: nat) -> Seq<T> {
    if left < stack.len() {
        stack.take(stack.len() - left)
    } else {
        seq![root]
    }
}

/// As long as the directories on top have nothing left, a visit leaves the
/// innermost ones, and no others.
proof fn lemma_leaving<T>(stack: Seq<T>, root: T, left: nat)
    requires
        left <= stack.len(),
    ensures
        visited(stack, root, Seq::new(left, |i: int| None::<T>)) == (
            way_back(stack, root, left),
            WalkStep::Advance,
        ),
    decreases left,
{
    let nothing = Seq::new(left, |i: int| None::<T>);
    if left == 0 {
        assert(stack.len() > 0 ==> way_back(stack, root, left) =~= stack);
        assert(stack.len() == 0 ==> stack.push(root) =~= seq![root]);
    } else {
        let before = (left - 1) as nat;
        lemma_leaving(stack, root, before);
        assert(nothing.drop_last() =~= Seq::new(before, |i: int| None::<T>));
        let reached = way_back(stack, root, before).drop_last();
        assert(reached =~= stack.take(stack.len() - left));
        assert(reached.len() == 0 ==> reached.push(root) =~= seq![root]);
    }
}

/// A whole visit: after the innermost directories had nothing left, this many
/// of them, and one gave up `subdir`, that is entered from there. The way to
/// it stays as it was; where no directory was left to go on in, the way is the
/// root, opened anew.
pub proof fn law_visit_enters_the_next_directory<T>(
    stack: Seq<T>,
    root: T,
    left: nat,
    subdir: T,
)
    requires
        left <= stack.len(),
    ensures
        visited(stack, root, Seq::new(left, |i: int| None::<T>).push(Some(subdir))) == (
            way_back(stack, root, left).push(subdir),
            WalkStep::Entered,
        ),
{
    let nothing = Seq::new(left, |i: int| None::<T>);
    lemma_leaving(stack, root, left);
    assert(nothing.push(Some(subdir)).drop_last() =~= nothing);
}

/// The kind of a directory's entry.
#[derive(Copy, Clone, Debug, PartialEq, Eq, Structural)]
pub struct EntryKind {
    pub is_dir: bool,
    pub is_symlink: bool,
}

/// Whether an entry is a directory to visit: one that is no link. An entry
/// whose kind could not be had is not visited.
pub fn is_subdir(kind: Option<EntryKind>) -> (visit: bool)
    ensures
        visit == (kind matches Some(k) && k.is_dir && !k.is_symlink),
{
    match kind {
        Some(kind) => kind.is_dir && !kind.is_symlink,
        None => false,
    }
}

} // verus!
