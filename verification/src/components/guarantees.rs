//! What holds of every product card, whatever it shows.

use crate::components::product_card::{
    button_path, card_tree, cart_button, image_path, link_path, name_path, offer, price_path,
    ProductCard,
};
use crate::route::Route;
use crate::tree::{diverge, Effect, Intent, Node, NodeView};
use crate::types::ProductView;
use vstd::prelude::*;

verus! {

/// The card shows the product's picture, its name, and its price behind a
/// dollar sign, each at its fixed place.
pub proof fn lemma_card_shows_product(p: ProductView)
    ensures
        card_tree(p).at(image_path()) == Some(
            NodeView::Image { class: "product_card_image"@, src: p.image },
        ),
        card_tree(p).at(name_path()) == Some(NodeView::Text { text: p.name }),
        card_tree(p).at(price_path()) == Some(NodeView::Text { text: "$"@ + p.price }),
        card_tree(p).shows_image(p.image),
        card_tree(p).shows_text(p.name),
        card_tree(p).shows_text("$"@ + p.price),
{
    reveal_with_fuel(NodeView::at, 5);
}

/// The link stands at its fixed place and leads to the detail page of the
/// product's id.
pub proof fn lemma_link_leads_to_product(p: ProductView)
    ensures
        card_tree(p).at(link_path()) == Some(offer(p)),
        offer(p) matches NodeView::Link { route, .. } && route == Route::ProductDetail(p.id),
{
    reveal_with_fuel(NodeView::at, 3);
}

/// The button stands at its fixed place, with its fixed caption, beside the
/// link and not inside it.
pub proof fn lemma_button_is_beside_the_link(p: ProductView)
    ensures
        card_tree(p).at(button_path()) == Some(cart_button()),
        cart_button().children() == seq![NodeView::Text { text: "Add To Cart"@ }],
        diverge(link_path(), button_path()),
{
    reveal_with_fuel(NodeView::at, 3);
}

/// Two products that differ at most in their ids give trees that differ at
/// most in where the link leads: picture, name, price and button are the
/// same.
pub proof fn lemma_id_moves_only_the_link_target(p: ProductView, q: ProductView)
    requires
        p.name == q.name,
        p.image == q.image,
        p.price == q.price,
    ensures
        card_tree(q) == card_tree(p).replaced(
            link_path(),
            NodeView::Link {
                class: "product_card_anchor"@,
                route: Route::ProductDetail(q.id),
                children: offer(p).children(),
            },
        ),
        card_tree(q).at(image_path()) == card_tree(p).at(image_path()),
        card_tree(q).at(name_path()) == card_tree(p).at(name_path()),
        card_tree(q).at(price_path()) == card_tree(p).at(price_path()),
        card_tree(q).at(button_path()) == card_tree(p).at(button_path()),
{
    lemma_card_shows_product(p);
    lemma_card_shows_product(q);
    lemma_button_is_beside_the_link(p);
    lemma_button_is_beside_the_link(q);
    reveal_with_fuel(NodeView::replaced, 3);
    let inner = card_tree(p).children()[0];
    assert(inner.children().update(0, offer(q)) =~= card_tree(q).children()[0].children());
    assert(card_tree(p).children().update(0, card_tree(q).children()[0]) =~= card_tree(
        q,
    ).children());
}

/// Two products that differ at most in their prices give trees that differ
/// at most in the text of the price: name, picture and link are the same.
pub proof fn lemma_price_moves_only_its_text(p: ProductView, q: ProductView)
    requires
        p.id == q.id,
        p.name == q.name,
        p.image == q.image,
    ensures
        card_tree(q) == card_tree(p).replaced(
            price_path(),
            NodeView::Text { text: "$"@ + q.price },
        ),
        card_tree(q).at(image_path()) == card_tree(p).at(image_path()),
        card_tree(q).at(name_path()) == card_tree(p).at(name_path()),
        card_tree(q).at(button_path()) == card_tree(p).at(button_path()),
        card_tree(q).click(link_path()) == card_tree(p).click(link_path()),
{
    lemma_card_shows_product(p);
    lemma_card_shows_product(q);
    lemma_button_is_beside_the_link(p);
    lemma_button_is_beside_the_link(q);
    lemma_link_leads_to_product(p);
    lemma_link_leads_to_product(q);
    lemma_link_navigates(p, link_path());
    lemma_link_navigates(q, link_path());
    reveal_with_fuel(NodeView::replaced, 5);
    let text = NodeView::Text { text: "$"@ + q.price };
    let price_box = offer(p).children()[2];
    assert(price_box.children().update(0, text) =~= offer(q).children()[2].children());
    assert(offer(p).children().update(2, offer(q).children()[2]) =~= offer(q).children());
    let inner = card_tree(p).children()[0];
    assert(inner.children().update(0, offer(q)) =~= card_tree(q).children()[0].children());
    assert(card_tree(p).children().update(0, card_tree(q).children()[0]) =~= card_tree(
        q,
    ).children());
}

/// A click on the button, or on anything inside it, notifies the owner of
/// the wish to add to the cart exactly once, whatever the product holds.
pub proof fn lemma_button_notifies_once(p: ProductView, path: Seq<usize>)
    requires
        button_path().is_prefix_of(path),
        card_tree(p).at(path) is Some,
    ensures
        card_tree(p).click(path) == Some(seq![Effect::Notify(Intent::AddToCart)]),
{
    lemma_click_outcomes(p, path);
}

/// A click on the button, or on anything inside it, does not reach the
/// link: it sets off no navigation.
pub proof fn lemma_button_never_navigates(p: ProductView, path: Seq<usize>, route: Route)
    requires
        button_path().is_prefix_of(path),
    ensures
        card_tree(p).click(path) matches Some(effects) ==> !effects.contains(
            Effect::Navigate(route),
        ),
{
    lemma_click_outcomes(p, path);
}

/// A click on the link, or on anything inside it (picture, name, price),
/// navigates to the product's detail page and notifies nobody.
pub proof fn lemma_link_navigates(p: ProductView, path: Seq<usize>)
    requires
        link_path().is_prefix_of(path),
        card_tree(p).at(path) is Some,
    ensures
        card_tree(p).click(path) == Some(seq![Effect::Navigate(Route::ProductDetail(p.id))]),
{
    lemma_click_outcomes(p, path);
}

/// Every click on a card, told apart by where it lands: on nothing, inside
/// the button, inside the link, or on the boxes around them.
pub proof fn lemma_click_outcomes(p: ProductView, path: Seq<usize>)
    ensures
        card_tree(p).click(path) == if card_tree(p).at(path) is None {
            None
        } else if button_path().is_prefix_of(path) {
            Some(seq![Effect::Notify(Intent::AddToCart)])
        } else if link_path().is_prefix_of(path) {
            Some(seq![Effect::Navigate(Route::ProductDetail(p.id))])
        } else {
            Some(Seq::<Effect>::empty())
        },
{
    reveal_with_fuel(NodeView::at, 6);
    reveal_with_fuel(NodeView::click, 6);
}

/// Rendering is a function of the product alone: whatever two render passes
/// hand back for cards that hold the same product, whichever handle comes
/// with it and however often they run, is the same tree.
pub proof fn lemma_render_repeats(
    first_card: ProductCard,
    second_card: ProductCard,
    first: Node,
    second: Node,
)
    requires
        first_card.state().product == second_card.state().product,
        call_ensures(ProductCard::view, (&first_card,), first),
        call_ensures(ProductCard::view, (&second_card,), second),
    ensures
        first@ == second@,
        first@ == card_tree(first_card.state().product),
{
}

} // verus!
