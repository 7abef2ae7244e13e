//! The page component: no fields, one payload-free message, one fixed paragraph.
use vstd::prelude::*;
use vstd::string::StringExecFns;

verus! {

/// The tag of the element that the component renders.
pub open spec fn greeting_tag() -> Seq<char> {
    seq!['p']
}

/// The text inside the rendered element.
pub open spec fn greeting_text() -> Seq<char> {
    seq!['H', 'e', 'l', 'l', 'o', ',', ' ', 'f', 'r', 'i', 'e', 'n', 'd', '.']
}

/// A rendered fragment: one element with a tag and a single text child.
pub struct Fragment {
    pub tag: String,
    pub text: String,
}

/// The mathematical value of a fragment: its tag and its text.
pub struct FragmentView {
    pub tag: Seq<char>,
    pub text: Seq<char>,
}

impl View for Fragment {
    type V = FragmentView;

    open spec fn view(&self) -> FragmentView {
        FragmentView { tag: self.tag@, text: self.text@ }
    }
}

/// The fragment that every render produces.
pub open spec fn greeting() -> FragmentView {
    FragmentView { tag: greeting_tag(), text: greeting_text() }
}

/// The one message the component accepts; it carries nothing.
#[derive(Clone, Copy, Debug, PartialEq, Eq, Structural)]
pub struct Message;

/// The component. It has no fields, so it has exactly one state.
#[derive(Clone, Copy, Debug, PartialEq, Eq, Structural)]
pub struct Model {}

/// The state after the component handles a message: the one state loops to itself.
pub open spec fn step(m: Model, msg: Message) -> Model {
    m
}

/// The state after `n` messages.
pub open spec fn run(m: Model, n: nat) -> Model
    decreases n,
{
    if n == 0 {
        m
    } else {
        step(run(m, (n - 1) as nat), Message)
    }
}

/// What a render of the component in state `m` produces.
pub open spec fn render(m: Model) -> FragmentView {
    greeting()
}

/// Rendering is idempotent: every render, in whatever state and however often
/// it is repeated, gives the same fragment, the greeting paragraph.
pub proof fn lemma_render_idempotent(m1: Model, m2: Model)
    ensures
        render(m1) == render(m2),
        render(m1) == greeting(),
{
}

/// Any number of messages leaves the rendered fragment as it was.
pub proof fn lemma_updates_keep_render(m: Model, n: nat)
    ensures
        run(m, n) == m,
        render(run(m, n)) == render(m),
    decreases n,
{
    if n > 0 {
        lemma_updates_keep_render(m, (n - 1) as nat);
    }
}

impl Model {
    /// Builds the component; it takes no configuration.
    pub fn create() -> (r: Model)
        ensures
            r == (Model {}),
    {
        Model {}
    }

    /// Handles a message. Nothing changes, and a redraw is always requested.
    pub fn update(&mut self, msg: Message) -> (redraw: bool)
        ensures
            redraw,
            *final(self) == step(*old(self), msg),
    {
        true
    }

    /// Renders the component: a paragraph holding "Hello, friend.".
    pub fn view(&self) -> (r: Fragment)
        ensures
            r@ == render(*self),
    {
        proof {
            reveal_strlit("p");
            reveal_strlit("Hello, friend.");
        }
        let tag = String::from_str("p");
        let text = String::from_str("Hello, friend.");
        let r = Fragment { tag, text };
        assert(r@.tag =~= greeting_tag());
        assert(r@.text =~= greeting_text());
        r
    }
}

} // verus!
