//! The plugin's quotes and the random pick among them.
use vstd::prelude::*;
use rand::seq::SliceRandom;
use crate::text::{owned, views};

verus! {

/// The quotes that the plugin draws from.
pub open spec fn quotes() -> Seq<Seq<char>> {
    seq![
        "The only way to do great work is to love what you do."@,
        "Life is what happens when you're busy making other plans."@,
        "The future belongs to those who believe in the beauty of their dreams."@,
        "The purpose of our lives is to be happy."@,
        "Get busy living or get busy dying."@,
    ]
}

/// The quotes as owned strings.
pub fn quote_list() -> (r: Vec<String>)
    ensures
        views(r@) == quotes(),
{
    let r = vec![
        owned("The only way to do great work is to love what you do."),
        owned("Life is what happens when you're busy making other plans."),
        owned("The future belongs to those who believe in the beauty of their dreams."),
        owned("The purpose of our lives is to be happy."),
        owned("Get busy living or get busy dying."),
    ];
    assert(views(r@) =~= quotes());
    r
}

/// Relies on rand's SliceRandom::choose with the thread's generator: `None`
/// for an empty slice, else one of its items.
#[verifier::external_body]
fn choose_one(items: &Vec<String>) -> (r: Option<String>)
    ensures
        r is None <==> items@.len() == 0,
        r matches Some(s) ==> exists|i: int| 0 <= i < items@.len() && items@[i]@ == s@,
{
    items.choose(&mut rand::thread_rng()).cloned()
}

/// The text of a pick: the quote itself, or empty where there was none.
pub fn quote_text(pick: Option<String>) -> (r: String)
    ensures
        pick matches Some(s) ==> r@ == s@,
        pick is None ==> r@.len() == 0,
{
    match pick {
        Some(s) => s,
        None => String::new(),
    }
}

/// One of the quotes, drawn at random.
pub fn random_quote() -> (r: String)
    ensures
        quotes().contains(r@),
{
    let list = quote_list();
    assert(views(list@).len() == quotes().len());
    let pick = choose_one(&list);
    let r = quote_text(pick);
    proof {
        let i = choose|i: int| 0 <= i < list@.len() && list@[i]@ == r@;
        assert(views(list@)[i] == r@);
    }
    r
}

} // verus!
