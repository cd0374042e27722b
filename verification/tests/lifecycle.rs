use product_card::components::product_card::{ProductCard, Props};
use product_card::route::Route;
use product_card::tree::{Effect, Intent, Node};
use product_card::types::Product;
use std::cell::Cell;
use std::rc::Rc;
use yew::Callback;

fn product(id: i32, name: &str, image: &str, price: &str) -> Product {
    Product { id, name: name.to_string(), image: image.to_string(), price: price.to_string() }
}

fn counting() -> (Callback<()>, Rc<Cell<u32>>) {
    let count = Rc::new(Cell::new(0));
    let inner = count.clone();
    (Callback::from(move |_: ()| inner.set(inner.get() + 1)), count)
}

fn text(text: &str) -> Node {
    Node::Text { text: text.to_string() }
}

#[test]
fn create_reflects_the_props() {
    let (handle, _) = counting();
    let card = ProductCard::create(Props {
        product: product(42, "Widget", "/img/widget.png", "9.99"),
        on_add_to_cart: handle.clone(),
    });
    assert_eq!(card.props().product, product(42, "Widget", "/img/widget.png", "9.99"));
    assert!(card.props().on_add_to_cart == handle);
}

#[test]
fn update_asks_for_a_render_and_keeps_the_props() {
    let (handle, count) = counting();
    let mut card = ProductCard::create(Props {
        product: product(42, "Widget", "/img/widget.png", "9.99"),
        on_add_to_cart: handle.clone(),
    });
    let before = card.view();
    assert!(card.update(()));
    assert!(card.update(()));
    assert_eq!(card.view(), before);
    assert_eq!(card.props().product, product(42, "Widget", "/img/widget.png", "9.99"));
    assert!(card.props().on_add_to_cart == handle);
    assert_eq!(count.get(), 0);
}

#[test]
fn change_asks_for_a_render_and_takes_the_new_props() {
    let mut card = ProductCard::create(Props {
        product: product(42, "Widget", "/img/widget.png", "9.99"),
        on_add_to_cart: Callback::noop(),
    });
    assert!(card.change(Props {
        product: product(42, "Widget", "/img/widget.png", "12.50"),
        on_add_to_cart: Callback::noop(),
    }));
    assert_eq!(card.props().product.price, "12.50");
    let tree = card.view();
    assert_eq!(tree.at(&[0, 0, 2, 0]), Some(&text("$12.50")));
    assert_eq!(tree.at(&[0, 0, 1, 0]), Some(&text("Widget")));
    assert_eq!(tree.click(&[0, 0]), Some(vec![Effect::Navigate(Route::ProductDetail(42))]));
}

#[test]
fn change_with_equal_props_still_asks_for_a_render() {
    let (handle, _) = counting();
    let mut card = ProductCard::create(Props {
        product: product(1, "a", "b", "c"),
        on_add_to_cart: handle.clone(),
    });
    let before = card.view();
    assert!(card.change(Props { product: product(1, "a", "b", "c"), on_add_to_cart: handle }));
    assert_eq!(card.view(), before);
}

#[test]
fn change_replaces_the_handle() {
    let (old_handle, old_count) = counting();
    let (new_handle, new_count) = counting();
    let mut card = ProductCard::create(Props {
        product: product(42, "Widget", "/img/widget.png", "9.99"),
        on_add_to_cart: old_handle,
    });
    assert!(card.change(Props {
        product: product(42, "Widget", "/img/widget.png", "9.99"),
        on_add_to_cart: new_handle.clone(),
    }));
    assert!(*card.handle(Intent::AddToCart) == new_handle);
    for effect in card.view().click(&[0, 1]).expect("the button is there") {
        if let Effect::Notify(intent) = effect {
            card.handle(intent).emit(());
        }
    }
    assert_eq!(old_count.get(), 0);
    assert_eq!(new_count.get(), 1);
}

#[test]
fn change_to_another_product_shows_it() {
    let mut card = ProductCard::create(Props {
        product: product(1, "Cup", "/img/cup.png", "3"),
        on_add_to_cart: Callback::noop(),
    });
    assert!(card.change(Props {
        product: product(2, "Plate", "/img/plate.png", "4.5"),
        on_add_to_cart: Callback::noop(),
    }));
    let tree = card.view();
    assert_eq!(tree.at(&[0, 0, 1, 0]), Some(&text("Plate")));
    assert_eq!(tree.at(&[0, 0, 2, 0]), Some(&text("$4.5")));
    assert_eq!(tree.click(&[0, 0, 0]), Some(vec![Effect::Navigate(Route::ProductDetail(2))]));
}
