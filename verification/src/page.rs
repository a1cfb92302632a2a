//! The counter page: one HTML document with the count in it and three
//! buttons that post to the service and show the count that comes back.

use vstd::prelude::*;
use vstd::string::*;
use crate::text::{decimal_string, int_text, int_value, lemma_int_text_reads_back};

verus! {

/// The page from its first character up to the element that shows the count.
pub const PAGE_HEAD: &'static str = r#"
        <!DOCTYPE html>
        <html lang="en">
        <head>
            <meta charset="UTF-8">
            <meta name="viewport" content="width=device-width, initial-scale=1.0">
            <title>Counter</title>
            <script src="https://cdn.tailwindcss.com"></script>
            <script>
                async function updateCounter(action) {
                    let response = await fetch('/' + action, { method: 'POST' });
                    let data = await response.json();
                    document.getElementById("counter").innerText = data.count;
                }
            </script>
        </head>
        <body class="flex flex-col items-center justify-center h-screen bg-gray-100">
            <h1 class="text-4xl font-bold mb-4">Counter: "#;

/// The opening tag of the element that shows the count. The page's script
/// finds the element by this id when a reply comes in.
pub const COUNT_OPEN: &'static str = r#"<span id="counter">"#;

/// The closing tag of the element that shows the count.
pub const COUNT_CLOSE: &'static str = "</span>";

/// The page from behind the element that shows the count to its last
/// character.
pub const PAGE_TAIL: &'static str = r#"</h1>
            <div class="space-x-4">
                <button onclick="updateCounter('increment')" class="px-4 py-2 bg-blue-500 text-white rounded">Increment</button>
                <button onclick="updateCounter('decrement')" class="px-4 py-2 bg-red-500 text-white rounded">Decrement</button>
                <button onclick="updateCounter('reset')" class="px-4 py-2 bg-gray-500 text-white rounded">Reset</button>
            </div>
        </body>
        </html>
        "#;

/// The fixed greeting.
pub const HELLO: &'static str = "<h1>Hello World</h1>";

/// The element that shows the count `count`.
pub open spec fn count_element(count: int) -> Seq<char> {
    COUNT_OPEN@ + int_text(count) + COUNT_CLOSE@
}

/// The whole page for the count `count`.
pub open spec fn page_text(count: int) -> Seq<char> {
    PAGE_HEAD@ + count_element(count) + PAGE_TAIL@
}

/// `needle` occurs in `hay` at offset `at`.
pub open spec fn occurs_at(hay: Seq<char>, needle: Seq<char>, at: int) -> bool {
    0 <= at && at + needle.len() <= hay.len() && hay.subrange(at, at + needle.len()) == needle
}

/// Renders the page for the count `count`.
pub fn render_page(count: i32) -> (page: String)
    ensures
        page@ == page_text(count as int),
{
    let number = decimal_string(count);
    let mut page = String::from_str(PAGE_HEAD);
    page.append(COUNT_OPEN);
    page.append(number.as_str());
    page.append(COUNT_CLOSE);
    page.append(PAGE_TAIL);
    page
}

/// The page for a count holds the count's decimal text, and holds it as the
/// whole content of the element that the script updates: the text stands
/// between that element's opening and closing tag.
pub proof fn lemma_page_shows_count(count: int)
    ensures
        occurs_at(page_text(count), count_element(count), PAGE_HEAD@.len() as int),
        occurs_at(count_element(count), int_text(count), COUNT_OPEN@.len() as int),
        occurs_at(
            page_text(count),
            int_text(count),
            (PAGE_HEAD@.len() + COUNT_OPEN@.len()) as int,
        ),
        count_element(count).len() == COUNT_OPEN@.len() + int_text(count).len()
            + COUNT_CLOSE@.len(),
{
    let element = count_element(count);
    let page = page_text(count);
    let text = int_text(count);
    let a = PAGE_HEAD@.len() as int;
    let b = COUNT_OPEN@.len() as int;
    assert(page.subrange(a, a + element.len()) =~= element);
    assert(element.subrange(b, b + text.len()) =~= text);
    assert(page.subrange(a + b, a + b + text.len()) =~= text);
}

/// Pages for different counts are different pages: the page determines the
/// count it shows.
pub proof fn lemma_page_determines_count(a: int, b: int)
    requires
        page_text(a) == page_text(b),
    ensures
        a == b,
{
    lemma_page_shows_count(a);
    lemma_page_shows_count(b);
    let at = (PAGE_HEAD@.len() + COUNT_OPEN@.len()) as int;
    let rest = (COUNT_CLOSE@.len() + PAGE_TAIL@.len()) as int;
    assert(page_text(a).len() == at + int_text(a).len() + rest);
    assert(page_text(b).len() == at + int_text(b).len() + rest);
    assert(int_text(a) == int_text(b));
    lemma_int_text_reads_back(a);
    lemma_int_text_reads_back(b);
    assert(int_value(int_text(a)) == int_value(int_text(b)));
}

} // verus!
