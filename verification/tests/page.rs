use web_counter::page::{render_page, COUNT_CLOSE, COUNT_OPEN, HELLO, PAGE_HEAD, PAGE_TAIL};

const PAGE_FOR_FIVE: &str = r#"
        <!DOCTYPE html>
        <html lang="en">
        <head>
            <meta charset="UTF-8">
            <meta name="viewport" content="width=device-width, initial-scale=1.0">
            <title>Counter</title>
            <script src="https://cdn.tailwindcss.com"></script>
            <script>
                async function updateCounter(action) {
                    let response = await fetch('/' + action, { method: 'POST' });
                    let data = await response.json();
                    document.getElementById("counter").innerText = data.count;
                }
            </script>
        </head>
        <body class="flex flex-col items-center justify-center h-screen bg-gray-100">
            <h1 class="text-4xl font-bold mb-4">Counter: <span id="counter">5</span></h1>
            <div class="space-x-4">
                <button onclick="updateCounter('increment')" class="px-4 py-2 bg-blue-500 text-white rounded">Increment</button>
                <button onclick="updateCounter('decrement')" class="px-4 py-2 bg-red-500 text-white rounded">Decrement</button>
                <button onclick="updateCounter('reset')" class="px-4 py-2 bg-gray-500 text-white rounded">Reset</button>
            </div>
        </body>
        </html>
        "#;

#[test]
fn page_for_five_is_the_whole_document() {
    assert_eq!(render_page(5), PAGE_FOR_FIVE);
}

#[test]
fn page_shows_the_count_in_the_counter_element() {
    for v in [0, 1, 7, -3, 12345, i32::MAX, i32::MIN] {
        let page = render_page(v);
        let shown = format!("Counter: <span id=\"counter\">{}</span></h1>", v);
        assert!(page.contains(&shown), "no {} in the page", v);
    }
}

#[test]
fn page_has_the_count_exactly_once_between_head_and_tail() {
    let page = render_page(-42);
    assert!(page.starts_with(PAGE_HEAD));
    assert!(page.ends_with(PAGE_TAIL));
    let middle = &page[PAGE_HEAD.len()..page.len() - PAGE_TAIL.len()];
    assert_eq!(middle, "<span id=\"counter\">-42</span>");
    assert_eq!(middle, format!("{}-42{}", COUNT_OPEN, COUNT_CLOSE));
}

#[test]
fn pages_for_different_counts_differ_only_in_the_count() {
    let one = render_page(1);
    let two = render_page(2);
    assert_ne!(one, two);
    assert_eq!(one.replace(">1<", ">2<"), two);
}

#[test]
fn page_posts_to_the_three_changes() {
    let page = render_page(0);
    assert!(page.contains("fetch('/' + action, { method: 'POST' })"));
    assert!(page.contains("updateCounter('increment')"));
    assert!(page.contains("updateCounter('decrement')"));
    assert!(page.contains("updateCounter('reset')"));
    assert!(page.contains("document.getElementById(\"counter\").innerText = data.count;"));
}

#[test]
fn greeting_text() {
    assert_eq!(HELLO, "<h1>Hello World</h1>");
}
