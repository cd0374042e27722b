//! The product card: one catalog record shown as a picture, a name and a
//! price inside a link to the detail page, with an add-to-cart button beside
//! the link.

use crate::route::Route;
use crate::tree::{lemma_views, Effect, Intent, Node, NodeView};
use crate::types::{Product, ProductView};
use vstd::prelude::*;
use vstd::string::StringExecFns;

verus! {

/// `yew::callback::Callback`, the handle through which a component reports
/// to its owner. Nothing is claimed of it: the card keeps it and hands it
/// back, and never calls it.
#[verifier::external_type_specification]
#[verifier::external_body]
#[verifier::reject_recursive_types(IN)]
pub struct ExCallback<IN>(yew::callback::Callback<IN>);

/// `yew::events::MouseEvent`, the click as the browser reports it (yew
/// passes on the type of `web_sys`). Nothing is claimed of it: the card
/// never looks into one.
#[verifier::external_type_specification]
#[verifier::external_body]
pub struct ExMouseEvent(yew::events::MouseEvent);

/// Calls `yew::callback::Callback::reform` on `handle` with a function that
/// drops the click: the result is a handle for clicks that passes each one
/// on to `handle` as a call with no argument. That is yew's doing and not
/// proved here, so nothing is claimed of the result.
#[verifier::external_body]
fn reform_for_clicks(handle: &yew::callback::Callback<()>) -> (listener: yew::callback::Callback<
    yew::events::MouseEvent,
>) {
    handle.reform(|_| ())
}

/// `listener` is what yew's `reform` made of `handle` and the function that
/// drops the click: a call of [`reform_for_clicks`] on `handle` gave it.
/// What such a listener does when it is called is yew's to say.
pub closed spec fn made_for_clicks(
    handle: yew::callback::Callback<()>,
    listener: yew::callback::Callback<yew::events::MouseEvent>,
) -> bool {
    call_ensures(reform_for_clicks, (&handle,), listener)
}

/// What the owner gives a card: the record to show and the handle to call,
/// with no argument, when the user asks for the product.
pub struct Props {
    /// The record to show.
    pub product: Product,
    /// Called, with no argument, for each wish to add the product to the
    /// cart. What the call does is the owner's business.
    pub on_add_to_cart: yew::callback::Callback<()>,
}

/// The mathematical content of [`Props`]. The handle stands for itself.
pub struct PropsView {
    pub product: ProductView,
    pub on_add_to_cart: yew::callback::Callback<()>,
}

impl View for Props {
    type V = PropsView;

    open spec fn view(&self) -> PropsView {
        PropsView { product: self.product@, on_add_to_cart: self.on_add_to_cart }
    }
}

/// The text of the price: a dollar sign, then the price as it was given.
pub open spec fn price_text(price: Seq<char>) -> Seq<char> {
    "$"@ + price
}

/// The link to the detail page, around picture, name and price.
pub open spec fn offer(p: ProductView) -> NodeView {
    NodeView::Link {
        class: "product_card_anchor"@,
        route: Route::ProductDetail(p.id),
        children: seq![
            NodeView::Image { class: "product_card_image"@, src: p.image },
            NodeView::Container {
                class: "product_card_name"@,
                children: seq![NodeView::Text { text: p.name }],
            },
            NodeView::Container {
                class: "product_card_price"@,
                children: seq![NodeView::Text { text: price_text(p.price) }],
            },
        ],
    }
}

/// The add-to-cart button.
pub open spec fn cart_button() -> NodeView {
    NodeView::Button {
        class: "product_atc_button"@,
        intent: Intent::AddToCart,
        children: seq![NodeView::Text { text: "Add To Cart"@ }],
    }
}

/// The tree of a card that shows `p`: the link and, beside it, the button.
pub open spec fn card_tree(p: ProductView) -> NodeView {
    NodeView::Container {
        class: Seq::empty(),
        children: seq![
            NodeView::Container {
                class: "product_card_container"@,
                children: seq![offer(p), cart_button()],
            },
        ],
    }
}

/// Where the link stands in the tree of a card.
pub open spec fn link_path() -> Seq<usize> {
    seq![0usize, 0usize]
}

/// Where the picture stands.
pub open spec fn image_path() -> Seq<usize> {
    seq![0usize, 0usize, 0usize]
}

/// Where the text of the name stands.
pub open spec fn name_path() -> Seq<usize> {
    seq![0usize, 0usize, 1usize, 0usize]
}

/// Where the text of the price stands.
pub open spec fn price_path() -> Seq<usize> {
    seq![0usize, 0usize, 2usize, 0usize]
}

/// Where the button stands.
pub open spec fn button_path() -> Seq<usize> {
    seq![0usize, 1usize]
}

/// A product card. All it holds is the props it was last given.
pub struct ProductCard {
    props: Props,
}

/// A node that holds one line of text.
fn text_box(class: &str, text: String) -> (node: Node)
    ensures
        node@ == (NodeView::Container {
            class: class@,
            children: seq![NodeView::Text { text: text@ }],
        }),
{
    let mut children: Vec<Node> = Vec::new();
    children.push(Node::Text { text });
    proof {
        lemma_views(children@);
    }
    let node = Node::Container { class: String::from_str(class), children };
    assert(node@.children() =~= seq![NodeView::Text { text: text@ }]);
    node
}

impl ProductCard {
    /// What the card holds: the content of the props it was last given.
    pub closed spec fn state(&self) -> PropsView {
        self.props@
    }

    /// A card over `props`.
    pub fn create(props: Props) -> (card: Self)
        ensures
            card.state() == props@,
    {
        ProductCard { props }
    }

    /// Takes a message. The card has none of its own, so nothing changes; a
    /// render pass is asked for all the same.
    pub fn update(&mut self, _msg: ()) -> (render: bool)
        ensures
            render,
            final(self).state() == old(self).state(),
    {
        true
    }

    /// Takes new props in place of the old ones, whether or not they differ,
    /// and asks for a render pass.
    pub fn change(&mut self, props: Props) -> (render: bool)
        ensures
            render,
            final(self).state() == props@,
    {
        self.props = props;
        true
    }

    /// Renders the card from its props.
    pub fn view(&self) -> (tree: Node)
        ensures
            tree@ == card_tree(self.state().product),
    {
        let product = &self.props.product;
        let image = Node::Image {
            class: String::from_str("product_card_image"),
            src: product.image.clone(),
        };
        let name = text_box("product_card_name", product.name.clone());
        let price = text_box(
            "product_card_price",
            String::from_str("$").concat(product.price.as_str()),
        );
        let ghost in_link = seq![image@, name@, price@];
        let mut children: Vec<Node> = Vec::new();
        children.push(image);
        children.push(name);
        children.push(price);
        proof {
            lemma_views(children@);
        }
        let link = Node::Link {
            class: String::from_str("product_card_anchor"),
            route: Route::ProductDetail(product.id),
            children,
        };
        assert(link@.children() =~= in_link);

        let mut children: Vec<Node> = Vec::new();
        children.push(Node::Text { text: String::from_str("Add To Cart") });
        proof {
            lemma_views(children@);
        }
        let button = Node::Button {
            class: String::from_str("product_atc_button"),
            intent: Intent::AddToCart,
            children,
        };
        assert(button@.children() =~= seq![NodeView::Text { text: "Add To Cart"@ }]);

        let mut children: Vec<Node> = Vec::new();
        children.push(link);
        children.push(button);
        proof {
            lemma_views(children@);
        }
        let inner = Node::Container {
            class: String::from_str("product_card_container"),
            children,
        };
        assert(inner@.children() =~= seq![offer(self.state().product), cart_button()]);

        let mut children: Vec<Node> = Vec::new();
        children.push(inner);
        proof {
            lemma_views(children@);
        }
        let tree = Node::Container { class: String::new(), children };
        assert(tree@.children() =~= card_tree(self.state().product).children());
        tree
    }

    /// What a click on the node at `path` of the rendered card sets off, for
    /// a host that delivers clicks itself: for each notification in the
    /// answer it owes one call, with no argument, to the handle that
    /// [`ProductCard::handle`] names. `None` where `path` leads to no node.
    pub fn click(&self, path: &[usize]) -> (r: Option<Vec<Effect>>)
        ensures
            match r {
                Some(effects) => card_tree(self.state().product).click(path@) == Some(effects@),
                None => card_tree(self.state().product).click(path@) is None,
            },
    {
        self.view().click(path)
    }

    /// The props the card was last given.
    pub fn props(&self) -> (props: &Props)
        ensures
            props@ == self.state(),
    {
        &self.props
    }

    /// The handle that a notification of `intent` is owed to: the one in the
    /// current props.
    pub fn handle(&self, intent: Intent) -> (handle: &yew::callback::Callback<()>)
        ensures
            *handle == self.state().on_add_to_cart,
    {
        match intent {
            Intent::AddToCart => &self.props.on_add_to_cart,
        }
    }

    /// What a painter hangs on a button that reports `intent`: a handle for
    /// the browser's clicks, made by yew from the handle of the current
    /// props.
    pub fn click_listener(&self, intent: Intent) -> (listener: yew::callback::Callback<
        yew::events::MouseEvent,
    >)
        ensures
            made_for_clicks(self.state().on_add_to_cart, listener),
    {
        reform_for_clicks(self.handle(intent))
    }
}

} // verus!
