//! The visual tree: what a render pass hands to whatever paints it, and how a
//! click on one of its nodes travels through it. The click is the only
//! gesture the tree knows; nothing else reaches a node.

use crate::route::Route;
use vstd::prelude::*;

verus! {

/// What a button reports to the owner of the tree when it is pressed.
#[derive(Clone, Copy, Debug, PartialEq, Eq, Structural)]
pub enum Intent {
    /// The user wants the shown product in the cart.
    AddToCart,
}

/// What a click sets off outside the tree.
#[derive(Clone, Copy, Debug, PartialEq, Eq, Structural)]
pub enum Effect {
    /// The owner is told of the intent, once.
    Notify(Intent),
    /// The routing layer is asked to go to the route.
    Navigate(Route),
}

/// One node of a rendered tree. A class is a style hook for the painter and
/// may be empty; the tree gives it no meaning.
#[derive(Debug, PartialEq, Eq)]
pub enum Node {
    /// A run of text.
    Text { text: String },
    /// A picture, found at `src`.
    Image { class: String, src: String },
    /// A box around its children, with no behaviour of its own.
    Container { class: String, children: Vec<Node> },
    /// A box whose content leads to `route` when clicked.
    Link { class: String, route: Route, children: Vec<Node> },
    /// A control that reports `intent` when clicked.
    Button { class: String, intent: Intent, children: Vec<Node> },
}

/// The mathematical content of a [`Node`].
pub enum NodeView {
    Text { text: Seq<char> },
    Image { class: Seq<char>, src: Seq<char> },
    Container { class: Seq<char>, children: Seq<NodeView> },
    Link { class: Seq<char>, route: Route, children: Seq<NodeView> },
    Button { class: Seq<char>, intent: Intent, children: Seq<NodeView> },
}

/// The views of a row of nodes, in the same order. It is written by
/// recursion so that the view of a node can rest on it; `lemma_views` says
/// it node by node.
pub open spec fn views(nodes: Seq<Node>) -> Seq<NodeView>
    decreases nodes,
{
    if nodes.len() == 0 {
        Seq::empty()
    } else {
        views(nodes.drop_last()).push(nodes.last().view())
    }
}

impl View for Node {
    type V = NodeView;

    open spec fn view(&self) -> NodeView
        decreases self,
    {
        match self {
            Node::Text { text } => NodeView::Text { text: text@ },
            Node::Image { class, src } => NodeView::Image { class: class@, src: src@ },
            Node::Container { class, children } => NodeView::Container {
                class: class@,
                children: views(children@),
            },
            Node::Link { class, route, children } => NodeView::Link {
                class: class@,
                route: *route,
                children: views(children@),
            },
            Node::Button { class, intent, children } => NodeView::Button {
                class: class@,
                intent: *intent,
                children: views(children@),
            },
        }
    }
}

/// `views` keeps the length and takes the view of each node where it stands.
pub proof fn lemma_views(nodes: Seq<Node>)
    ensures
        views(nodes).len() == nodes.len(),
        forall|i: int| 0 <= i < nodes.len() ==> (#[trigger] views(nodes)[i]) == nodes[i]@,
    decreases nodes.len(),
{
    if nodes.len() > 0 {
        lemma_views(nodes.drop_last());
        assert(views(nodes) == views(nodes.drop_last()).push(nodes.last().view()));
    }
}

impl NodeView {
    /// The nodes directly below this one; none below a text or an image.
    pub open spec fn children(self) -> Seq<NodeView> {
        match self {
            NodeView::Text { .. } => Seq::empty(),
            NodeView::Image { .. } => Seq::empty(),
            NodeView::Container { children, .. } => children,
            NodeView::Link { children, .. } => children,
            NodeView::Button { children, .. } => children,
        }
    }

    /// What this node itself does when a click reaches it: a link navigates,
    /// a button notifies, everything else does nothing.
    pub open spec fn reaction(self) -> Seq<Effect> {
        match self {
            NodeView::Link { route, .. } => seq![Effect::Navigate(route)],
            NodeView::Button { intent, .. } => seq![Effect::Notify(intent)],
            _ => Seq::empty(),
        }
    }

    /// The node that `path` leads to from this one, each step picking a child
    /// by its index; `None` where a step leaves the tree.
    pub open spec fn at(self, path: Seq<usize>) -> Option<NodeView>
        decreases path.len(),
    {
        if path.len() == 0 {
            Some(self)
        } else if path[0] < self.children().len() {
            self.children()[path[0] as int].at(path.drop_first())
        } else {
            None
        }
    }

    /// What a click on the node at `path` sets off: the reactions of that
    /// node and of every node around it, innermost first, and of no other
    /// node. `None` where `path` leads to no node.
    pub open spec fn click(self, path: Seq<usize>) -> Option<Seq<Effect>>
        decreases path.len(),
    {
        if path.len() == 0 {
            Some(self.reaction())
        } else if path[0] < self.children().len() {
            match self.children()[path[0] as int].click(path.drop_first()) {
                Some(inner) => Some(inner + self.reaction()),
                None => None,
            }
        } else {
            None
        }
    }

    /// This tree with the node at `path` exchanged for `node` and all else as
    /// it was; the tree itself where `path` leads to no node.
    pub open spec fn replaced(self, path: Seq<usize>, node: NodeView) -> NodeView
        decreases path.len(),
    {
        if path.len() == 0 {
            node
        } else if path[0] < self.children().len() {
            let i = path[0] as int;
            self.with_children(
                self.children().update(i, self.children()[i].replaced(path.drop_first(), node)),
            )
        } else {
            self
        }
    }

    /// This node over other children; a text or an image stays as it is.
    pub open spec fn with_children(self, children: Seq<NodeView>) -> NodeView {
        match self {
            NodeView::Text { .. } => self,
            NodeView::Image { .. } => self,
            NodeView::Container { class, .. } => NodeView::Container { class, children },
            NodeView::Link { class, route, .. } => NodeView::Link { class, route, children },
            NodeView::Button { class, intent, .. } => NodeView::Button { class, intent, children },
        }
    }

    /// Some node of the tree is a text that reads `text`.
    pub open spec fn shows_text(self, text: Seq<char>) -> bool {
        exists|path: Seq<usize>| #[trigger] self.at(path) == Some(NodeView::Text { text })
    }

    /// Some node of the tree is an image found at `src`.
    pub open spec fn shows_image(self, src: Seq<char>) -> bool {
        exists|path: Seq<usize>|
            match #[trigger] self.at(path) {
                Some(NodeView::Image { src: found, .. }) => found == src,
                _ => false,
            }
    }
}

/// The two paths part ways: at some step they pick different children.
pub open spec fn diverge(a: Seq<usize>, b: Seq<usize>) -> bool {
    exists|k: int| 0 <= k < a.len() && k < b.len() && a[k] != b[k]
}

/// A click lands exactly where there is a node to land on.
pub proof fn lemma_click_lands_on_nodes(tree: NodeView, path: Seq<usize>)
    ensures
        tree.click(path) is Some <==> tree.at(path) is Some,
    decreases path.len(),
{
    if path.len() > 0 && path[0] < tree.children().len() {
        lemma_click_lands_on_nodes(tree.children()[path[0] as int], path.drop_first());
    }
}

/// Whatever a click sets off is the reaction of a node on the way to where
/// it landed: no node beside that way reacts.
pub proof fn lemma_effects_come_from_the_path(tree: NodeView, path: Seq<usize>, effect: Effect)
    requires
        tree.click(path) matches Some(effects) && effects.contains(effect),
    ensures
        exists|k: int|
            0 <= k <= path.len() && match #[trigger] tree.at(path.take(k)) {
                Some(node) => node.reaction().contains(effect),
                None => false,
            },
    decreases path.len(),
{
    if tree.reaction().contains(effect) {
        assert(tree.at(path.take(0)) == Some(tree));
    } else {
        let child = tree.children()[path[0] as int];
        let rest = path.drop_first();
        lemma_effects_come_from_the_path(child, rest, effect);
        let k = choose|k: int|
            0 <= k <= rest.len() && match #[trigger] child.at(rest.take(k)) {
                Some(node) => node.reaction().contains(effect),
                None => false,
            };
        assert(path.take(k + 1).drop_first() =~= rest.take(k));
        assert(tree.at(path.take(k + 1)) == child.at(rest.take(k)));
    }
}

/// After an exchange at `path`, the new node is what stands there.
pub proof fn lemma_replaced_puts_node(tree: NodeView, path: Seq<usize>, node: NodeView)
    requires
        tree.at(path) is Some,
    ensures
        tree.replaced(path, node).at(path) == Some(node),
    decreases path.len(),
{
    if path.len() > 0 {
        lemma_replaced_puts_node(tree.children()[path[0] as int], path.drop_first(), node);
    }
}

/// An exchange at `path` leaves every place alone that lies off `path`:
/// what stood there stands there still.
pub proof fn lemma_replaced_keeps_elsewhere(
    tree: NodeView,
    path: Seq<usize>,
    node: NodeView,
    other: Seq<usize>,
)
    requires
        diverge(path, other),
    ensures
        tree.replaced(path, node).at(other) == tree.at(other),
    decreases path.len(),
{
    let k = choose|k: int| 0 <= k < path.len() && k < other.len() && path[k] != other[k];
    if path[0] < tree.children().len() {
        let i = path[0] as int;
        if other[0] == path[0] {
            assert(other.drop_first()[k - 1] == other[k]);
            lemma_replaced_keeps_elsewhere(
                tree.children()[i],
                path.drop_first(),
                node,
                other.drop_first(),
            );
        }
    }
}

/// A copy of each node of a row, in the same order.
fn clone_row(nodes: &Vec<Node>) -> (copy: Vec<Node>)
    ensures
        views(copy@) == views(nodes@),
    decreases nodes,
{
    let mut copy: Vec<Node> = Vec::new();
    let mut i: usize = 0;
    while i < nodes.len()
        invariant
            i <= nodes.len(),
            copy.len() == i,
            forall|k: int| 0 <= k < i ==> (#[trigger] copy[k])@ == nodes[k]@,
        decreases nodes.len() - i,
    {
        copy.push(nodes[i].clone());
        i = i + 1;
    }
    proof {
        lemma_views(copy@);
        lemma_views(nodes@);
    }
    copy
}

impl Clone for Node {
    /// A copy of the whole tree below and including this node.
    fn clone(&self) -> (copy: Self)
        ensures
            copy@ == self@,
        decreases self,
    {
        match self {
            Node::Text { text } => Node::Text { text: text.clone() },
            Node::Image { class, src } => Node::Image { class: class.clone(), src: src.clone() },
            Node::Container { class, children } => Node::Container {
                class: class.clone(),
                children: clone_row(children),
            },
            Node::Link { class, route, children } => Node::Link {
                class: class.clone(),
                route: *route,
                children: clone_row(children),
            },
            Node::Button { class, intent, children } => Node::Button {
                class: class.clone(),
                intent: *intent,
                children: clone_row(children),
            },
        }
    }
}

impl Node {
    /// The children of a node that can have any.
    fn children(&self) -> (r: Option<&Vec<Node>>)
        ensures
            match r {
                Some(nodes) => self@.children() == views(nodes@),
                None => self@.children() == Seq::<NodeView>::empty(),
            },
    {
        match self {
            Node::Text { .. } => None,
            Node::Image { .. } => None,
            Node::Container { children, .. } => Some(children),
            Node::Link { children, .. } => Some(children),
            Node::Button { children, .. } => Some(children),
        }
    }

    /// What this node itself does when a click reaches it.
    fn reaction(&self) -> (r: Vec<Effect>)
        ensures
            r@ == self@.reaction(),
    {
        let mut effects: Vec<Effect> = Vec::new();
        match self {
            Node::Link { route, .. } => {
                effects.push(Effect::Navigate(*route));
            },
            Node::Button { intent, .. } => {
                effects.push(Effect::Notify(*intent));
            },
            _ => {},
        }
        effects
    }

    /// The node that `path` leads to: each step picks a child by its index.
    /// `None` where a step leaves the tree.
    pub fn at(&self, path: &[usize]) -> (r: Option<&Node>)
        ensures
            match r {
                Some(node) => self@.at(path@) == Some(node@),
                None => self@.at(path@) is None,
            },
    {
        let mut node = self;
        let mut depth: usize = 0;
        assert(path@.skip(0) == path@);
        while depth < path.len()
            invariant
                depth <= path.len(),
                self@.at(path@) == node@.at(path@.skip(depth as int)),
            decreases path.len() - depth,
        {
            assert(path@.skip(depth as int).drop_first() == path@.skip(depth + 1));
            match node.children() {
                Some(nodes) => {
                    proof {
                        lemma_views(nodes@);
                    }
                    if path[depth] < nodes.len() {
                        node = &nodes[path[depth]];
                    } else {
                        return None;
                    }
                },
                None => {
                    return None;
                },
            }
            depth = depth + 1;
        }
        Some(node)
    }

    /// What a click on the node at `path` sets off, innermost reaction first.
    /// `None` where `path` leads to no node.
    pub fn click(&self, path: &[usize]) -> (r: Option<Vec<Effect>>)
        ensures
            match r {
                Some(effects) => self@.click(path@) == Some(effects@),
                None => self@.click(path@) is None,
            },
    {
        assert(path@.skip(0) == path@);
        self.click_below(path, 0)
    }

    /// `click` for the part of `path` that starts at `depth`.
    fn click_below(&self, path: &[usize], depth: usize) -> (r: Option<Vec<Effect>>)
        requires
            depth <= path.len(),
        ensures
            match r {
                Some(effects) => self@.click(path@.skip(depth as int)) == Some(effects@),
                None => self@.click(path@.skip(depth as int)) is None,
            },
        decreases path.len() - depth,
    {
        if depth == path.len() {
            return Some(self.reaction());
        }
        assert(path@.skip(depth as int).drop_first() == path@.skip(depth + 1));
        match self.children() {
            Some(nodes) => {
                proof {
                    lemma_views(nodes@);
                }
                if path[depth] < nodes.len() {
                    match nodes[path[depth]].click_below(path, depth + 1) {
                        Some(inner) => {
                            let mut effects = inner;
                            let mut own = self.reaction();
                            effects.append(&mut own);
                            Some(effects)
                        },
                        None => None,
                    }
                } else {
                    None
                }
            },
            None => None,
        }
    }
}

} // verus!
