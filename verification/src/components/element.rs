use crate::components::ui::{ButtonText, Color, MainMenu, MenuButton, MenuTitle};
use crate::resources::game_state::GameState;
use vstd::prelude::*;

verus! {

/// A length in a layout.
#[derive(Debug, Clone, Copy, PartialEq, Eq)]
pub enum Val {
    /// Sized by the content.
    Auto,
    /// Logical pixels.
    Px(u32),
    /// Percent of the parent's size.
    Percent(u32),
}

/// How a node lays out itself and its children.
#[derive(Debug, Clone, Copy, PartialEq, Eq)]
pub struct Style {
    pub width: Val,
    pub height: Val,
    /// Children are stacked top to bottom, not left to right.
    pub column: bool,
    /// Children are centred along the main axis.
    pub justify_center: bool,
    /// Children are centred along the cross axis.
    pub align_center: bool,
    /// Gap between rows, in logical pixels.
    pub row_gap: u32,
    /// Margin above the node, in logical pixels.
    pub margin_top: u32,
}

/// What an element shows.
#[derive(Debug, Clone, Copy, PartialEq, Eq)]
pub enum Widget {
    /// The camera through which the screen is drawn.
    Camera,
    /// A container. Without a backdrop it is transparent.
    Node { style: Style, backdrop: Option<Color> },
    /// A line of text.
    Text { content: &'static str, font_size: u32, color: Color },
    /// A control that reacts to the pointer.
    Button { style: Style, background: Color },
}

/// The role by which an element is found again.
#[derive(Debug, Clone, Copy, PartialEq, Eq)]
pub enum Marker {
    Unmarked,
    Root(MainMenu),
    Title(MenuTitle),
    Button(MenuButton),
    Label(ButtonText),
}

/// One element of a screen, as its builder created it.
#[derive(Debug, Clone, Copy, PartialEq, Eq)]
pub struct Element {
    /// The screen that owns the element. It is destroyed when that screen is left.
    pub screen: GameState,
    /// The index of the parent among the elements, or `None` for a root.
    pub parent: Option<usize>,
    pub widget: Widget,
    pub marker: Marker,
}

impl Element {
    /// Whether other elements may name this one as their parent.
    pub open spec fn is_container(self) -> bool {
        self.widget is Node || self.widget is Button
    }

    /// Whether the element is a button, and so carries an action.
    pub open spec fn is_button(self) -> bool {
        self.marker is Button
    }
}

/// Every element belongs to the given screen.
pub open spec fn owned_by(elements: Seq<Element>, screen: GameState) -> bool {
    forall|i: int| 0 <= i < elements.len() ==> (#[trigger] elements[i]).screen == screen
}

/// Every parent stands before its child, is a container, and belongs to the
/// same screen: the elements form trees, and no tree spans two screens.
pub open spec fn linked(elements: Seq<Element>) -> bool {
    forall|i: int|
        0 <= i < elements.len() ==> ((#[trigger] elements[i]).parent matches Some(p) ==> {
            &&& p < i
            &&& elements[p as int].is_container()
            &&& elements[p as int].screen == elements[i].screen
        })
}

/// The same of a run of elements that stands where `base` elements stand
/// before it: every parent is within the run.
pub open spec fn linked_from(tree: Seq<Element>, base: nat) -> bool {
    forall|i: int|
        0 <= i < tree.len() ==> ((#[trigger] tree[i]).parent matches Some(p) ==> {
            &&& base <= p < base + i
            &&& tree[p - base].is_container()
            &&& tree[p - base].screen == tree[i].screen
        })
}

/// The elements that the given screen owns, in their order.
pub open spec fn tagged(elements: Seq<Element>, screen: GameState) -> Seq<Element> {
    elements.filter(|e: Element| e.screen == screen)
}

/// The elements that the given screen does not own, in their order.
pub open spec fn untagged(elements: Seq<Element>, screen: GameState) -> Seq<Element> {
    elements.filter(|e: Element| e.screen != screen)
}

/// Adds one element and returns its index, by which its children name it.
pub fn spawn(elements: &mut Vec<Element>, element: Element) -> (id: usize)
    ensures
        final(elements)@ == old(elements)@.push(element),
        id == old(elements)@.len(),
{
    let id: usize = elements.len();
    elements.push(element);
    id
}

/// Destroys every element that the given screen owns. The others stay, in
/// their order. Where the screen owns nothing, nothing happens.
pub fn despawn_screen(elements: &mut Vec<Element>, screen: GameState)
    ensures
        final(elements)@ == untagged(old(elements)@, screen),
{
    let mut kept: Vec<Element> = Vec::new();
    let mut i: usize = 0;
    proof {
        reveal(Seq::filter);
        assert(elements@.subrange(0, 0) =~= Seq::<Element>::empty());
    }
    while i < elements.len()
        invariant
            i <= elements.len(),
            elements@ == old(elements)@,
            kept@ == untagged(elements@.subrange(0, i as int), screen),
        decreases elements.len() - i,
    {
        let element: Element = elements[i];
        proof {
            reveal(Seq::filter);
            let next = elements@.subrange(0, i + 1);
            assert(next.drop_last() =~= elements@.subrange(0, i as int));
            assert(next.last() == element);
        }
        if element.screen != screen {
            kept.push(element);
        }
        i = i + 1;
    }
    proof {
        assert(elements@.subrange(0, i as int) =~= elements@);
    }
    *elements = kept;
}

/// Counts the elements that the given screen owns.
pub fn count_tagged(elements: &Vec<Element>, screen: GameState) -> (count: usize)
    ensures
        count == tagged(elements@, screen).len(),
{
    let mut count: usize = 0;
    let mut i: usize = 0;
    proof {
        reveal(Seq::filter);
        assert(elements@.subrange(0, 0) =~= Seq::<Element>::empty());
    }
    while i < elements.len()
        invariant
            i <= elements.len(),
            count <= i,
            count == tagged(elements@.subrange(0, i as int), screen).len(),
        decreases elements.len() - i,
    {
        proof {
            reveal(Seq::filter);
            let next = elements@.subrange(0, i + 1);
            assert(next.drop_last() =~= elements@.subrange(0, i as int));
            assert(next.last() == elements@[i as int]);
        }
        if elements[i].screen == screen {
            count = count + 1;
        }
        i = i + 1;
    }
    proof {
        assert(elements@.subrange(0, i as int) =~= elements@);
    }
    count
}

/// Elements that form trees still do so when a run that forms trees from
/// their end is added.
pub proof fn lemma_linked_append(elements: Seq<Element>, tree: Seq<Element>)
    requires
        linked(elements),
        linked_from(tree, elements.len()),
    ensures
        linked(elements + tree),
{
    let base = elements.len() as int;
    let all = elements + tree;
    assert forall|i: int| 0 <= i < all.len() implies ((#[trigger] all[i]).parent matches Some(p)
        ==> p < i && all[p as int].is_container() && all[p as int].screen == all[i].screen) by {
        if i < base {
            assert(all[i] == elements[i]);
            if let Some(p) = elements[i].parent {
                assert(all[p as int] == elements[p as int]);
            }
        } else {
            assert(all[i] == tree[i - base]);
            if let Some(p) = tree[i - base].parent {
                assert(all[p as int] == tree[p - base]);
            }
        }
    }
}

/// Where one screen owns every element, destroying that screen's elements
/// leaves none, and destroying another screen's elements destroys none.
pub proof fn lemma_despawn_of_owned(elements: Seq<Element>, owner: GameState, screen: GameState)
    requires
        owned_by(elements, owner),
    ensures
        untagged(elements, owner) == Seq::<Element>::empty(),
        screen != owner ==> untagged(elements, screen) == elements,
        tagged(elements, owner) == elements,
        screen != owner ==> tagged(elements, screen) == Seq::<Element>::empty(),
    decreases elements.len(),
{
    reveal(Seq::filter);
    if elements.len() > 0 {
        let front = elements.drop_last();
        assert(elements[elements.len() - 1].screen == owner);
        assert forall|i: int| 0 <= i < front.len() implies (#[trigger] front[i]).screen
            == owner by {
            assert(front[i] == elements[i]);
        }
        lemma_despawn_of_owned(front, owner, screen);
        assert(front.push(elements.last()) =~= elements);
    }
}

/// Once a screen's elements are destroyed, the screen owns none of those that
/// are left, and every element that is left was there before.
pub proof fn lemma_despawn_leaves_none(elements: Seq<Element>, screen: GameState)
    ensures
        tagged(untagged(elements, screen), screen) == Seq::<Element>::empty(),
        forall|i: int|
            0 <= i < untagged(elements, screen).len() ==> (#[trigger] untagged(
                elements,
                screen,
            )[i]).screen != screen,
        forall|i: int|
            0 <= i < untagged(elements, screen).len() ==> elements.contains(
                #[trigger] untagged(elements, screen)[i],
            ),
    decreases elements.len(),
{
    reveal(Seq::filter);
    let rest = untagged(elements, screen);
    if elements.len() > 0 {
        let front = elements.drop_last();
        lemma_despawn_leaves_none(front, screen);
        let rest_front = untagged(front, screen);
        assert forall|i: int| 0 <= i < rest.len() implies elements.contains(
            #[trigger] rest[i],
        ) && rest[i].screen != screen by {
            if i < rest_front.len() {
                assert(rest[i] == rest_front[i]);
                let j = choose|j: int| 0 <= j < front.len() && front[j] == rest_front[i];
                assert(elements[j] == rest[i]);
            } else {
                assert(rest[i] == elements.last());
                assert(elements[elements.len() - 1] == rest[i]);
            }
        }
        if elements.last().screen != screen {
            assert(rest.drop_last() =~= rest_front);
        }
    }
}

} // verus!
