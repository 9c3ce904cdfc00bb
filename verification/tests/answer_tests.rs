use hors::answer::get_answers;
use hors::answer::get_results_with_links_only;
use hors::answer::parse_answer;
use hors::config::Config;
use hors::config::OutputMode;
use hors::highlight::colorized_code;
use hors::highlight::guess_syntax;
use hors::text::extract_question;
use hors::text::splitter;

fn code_page() -> String {
    String::from(
        "<html><body>
            <a class=\"post-tag\">rust</a>
            <div class=\"answer\">
                <div class=\"post-text\">
                    <pre>fn main() {}</pre>
                </div>
            </div>
        </body></html>",
    )
}

fn detailed_page() -> String {
    String::from(
        "<html><body><div class=\"answer\"><div class=\"post-text\"><p>first paragraph</p><pre>let x = 1;</pre><p>second paragraph</p></div></div></body></html>",
    )
}

#[test]
fn no_answer_element_yields_none_in_every_mode() {
    let page = String::from("<html><body><div class=\"question\">only a question</div></body></html>");
    let code_conf = Config { mode: OutputMode::CodeOnly, numbers: 1, colorize: false };
    let detail_conf = Config { mode: OutputMode::Detailed, numbers: 1, colorize: true };
    assert_eq!(parse_answer(&page, &code_conf), None);
    assert_eq!(parse_answer(&page, &detail_conf), None);
}

#[test]
fn code_only_prefers_pre_block() {
    let page = String::from(
        "<html><body><div class=\"answer\"><div class=\"post-text\">\
         <pre>from pre</pre><code>from code</code></div></div></body></html>",
    );
    let conf = Config { mode: OutputMode::CodeOnly, numbers: 1, colorize: false };
    assert_eq!(parse_answer(&page, &conf), Some(String::from("from pre")));
}

#[test]
fn code_only_falls_back_to_inline_code() {
    let page = String::from(
        "<html><body><div class=\"answer\"><div class=\"post-text\">\
         <code>inline only</code></div></div></body></html>",
    );
    let conf = Config { mode: OutputMode::CodeOnly, numbers: 1, colorize: false };
    assert_eq!(parse_answer(&page, &conf), Some(String::from("inline only")));
}

#[test]
fn code_only_without_any_code_yields_none() {
    let page = String::from(
        "<html><body><div class=\"answer\"><div class=\"post-text\">\
         <p>prose only</p></div></div></body></html>",
    );
    let conf = Config { mode: OutputMode::CodeOnly, numbers: 1, colorize: false };
    assert_eq!(parse_answer(&page, &conf), None);
}

#[test]
fn colorized_code_only_uses_page_tags_in_order() {
    let page = code_page();
    let conf = Config { mode: OutputMode::CodeOnly, numbers: 1, colorize: true };
    let out = parse_answer(&page, &conf).unwrap();
    let expected = colorized_code(&String::from("fn main() {}"), &vec![String::from("rust")]);
    assert_eq!(out, expected);
    // A plain-text rendering (no tags) colors the keywords differently.
    let plain = colorized_code(&String::from("fn main() {}"), &Vec::new());
    assert_ne!(out, plain);
}

#[test]
fn first_matching_tag_wins() {
    let tags = vec![String::from("python"), String::from("rust")];
    assert_eq!(guess_syntax(&tags), Some(String::from("Python")));
    let tags = vec![String::from("unknown-nonsense-tag"), String::from("rust")];
    assert_eq!(guess_syntax(&tags), Some(String::from("Rust")));
}

#[test]
fn unknown_tags_fall_back_to_plain_text() {
    let tags = vec![String::from("unknown-nonsense-tag")];
    assert_eq!(guess_syntax(&tags), None);
    let code = String::from("some plain words");
    let with_unknown = colorized_code(&code, &tags);
    let with_no_tags = colorized_code(&code, &Vec::new());
    // The unrecognized hint degrades to the same plain-text rendering.
    assert_eq!(with_unknown, with_no_tags);
    // The escape-wrapped output still carries the input text unchanged.
    assert!(with_unknown.contains("some plain words"));
    assert_ne!(with_unknown, code);
}

#[test]
fn extract_question_round_trip() {
    assert_eq!(
        extract_question("questions/12345/the-specific-question"),
        String::from("the specific question")
    );
}

#[test]
fn answer_extraction_is_idempotent() {
    let page = detailed_page();
    let conf = Config { mode: OutputMode::Detailed, numbers: 1, colorize: true };
    let first = parse_answer(&page, &conf);
    let second = parse_answer(&page, &conf);
    assert_eq!(first, second);
    let plain_conf = Config { mode: OutputMode::Detailed, numbers: 1, colorize: false };
    assert_eq!(parse_answer(&page, &plain_conf), parse_answer(&page, &plain_conf));
}

#[test]
fn non_question_link_consumes_a_slot_without_a_block() {
    let links = vec![
        String::from("https://site/questions/1/a"),
        String::from("https://site/other/page"),
    ];
    let pages = vec![Some(code_page()), None];
    let conf = Config { mode: OutputMode::CodeOnly, numbers: 2, colorize: false };
    let out = get_answers(&links, &pages, &conf);
    let blocks: Vec<&str> = out.split(splitter()).collect();
    assert_eq!(blocks.len(), 1);
    assert!(blocks[0].starts_with("- Answer from https://site/questions/1/a\n"));
}

#[test]
fn failed_fetch_yields_placeholder_not_abort() {
    let links = vec![
        String::from("https://site/questions/1/a"),
        String::from("https://site/questions/2/b"),
    ];
    let pages = vec![None, Some(code_page())];
    let conf = Config { mode: OutputMode::CodeOnly, numbers: 2, colorize: false };
    let out = get_answers(&links, &pages, &conf);
    let blocks: Vec<&str> = out.split(splitter()).collect();
    assert_eq!(blocks.len(), 2);
    assert_eq!(blocks[0], "Can't get answer from https://site/questions/1/a");
    assert!(blocks[1].starts_with("- Answer from https://site/questions/2/b\n"));
}

#[test]
fn links_only_block_holds_title_and_link() {
    let links = vec![String::from("https://site/questions/1/how-to-write-unit-tests")];
    let out = get_results_with_links_only(&links, 1);
    assert_eq!(
        out,
        "Title - how to write unit tests\nhttps://site/questions/1/how-to-write-unit-tests"
    );
    let conf = Config { mode: OutputMode::LinksOnly, numbers: 1, colorize: false };
    assert_eq!(get_answers(&links, &Vec::new(), &conf), out);
}

#[test]
fn links_only_title_comes_from_url_path() {
    // The query string is not part of the URL path, so it never reaches the title.
    let links = vec![String::from("https://site/questions/1/how-to-do-x?ref=1")];
    let out = get_results_with_links_only(&links, 1);
    assert_eq!(out, "Title - how to do x\nhttps://site/questions/1/how-to-do-x?ref=1");
}

#[test]
fn links_only_skips_non_question_links() {
    let links = vec![
        String::from("https://site/other/page"),
        String::from("https://site/questions/5/some-title"),
    ];
    let out = get_results_with_links_only(&links, 2);
    assert_eq!(out, "Title - some title\nhttps://site/questions/5/some-title");
}

#[test]
fn detailed_colorized_keeps_paragraph_boundaries() {
    let page = detailed_page();
    let conf = Config { mode: OutputMode::Detailed, numbers: 1, colorize: true };
    let out = parse_answer(&page, &conf).unwrap();
    let first = out.find("first paragraph\n\n").expect("first paragraph kept");
    let code = out.find("let x = 1;").expect("code kept");
    let second = out.find("second paragraph\n\n").expect("second paragraph kept");
    assert!(first < code);
    assert!(code < second);
}

#[test]
fn detailed_plain_flattens_the_container() {
    let page = detailed_page();
    let conf = Config { mode: OutputMode::Detailed, numbers: 1, colorize: false };
    let out = parse_answer(&page, &conf).unwrap();
    assert_eq!(out, "first paragraphlet x = 1;second paragraph");
}
