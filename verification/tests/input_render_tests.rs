use clothes_search::ClothesDisplay;
use clothes_search::config;
use clothes_search::is_quit;
use clothes_search::render::exit_message;
use clothes_search::render::prompt_text;
use clothes_search::render::render_hits;
use clothes_search::render::render_one;
use clothes_search::trim_line;

#[test]
fn trims_as_the_standard_library_does() {
    let samples = [
        "",
        "q",
        "  hello  ",
        "\t sweat pants \n",
        "\r\nquit\r\n",
        "\u{00A0}q\u{00A0}",
        "\u{3000}mixed inner  space\u{2028}",
        "   ",
        "no trim needed",
    ];
    for s in samples {
        assert_eq!(trim_line(s), s.trim(), "on {:?}", s);
    }
}

#[test]
fn quit_words_end_the_loop() {
    assert!(is_quit("q"));
    assert!(is_quit("quit"));
    assert!(is_quit(""));
    assert!(is_quit("  q\n"));
    assert!(is_quit(" quit "));
    assert!(is_quit(" \t "));
}

#[test]
fn other_lines_do_not_end_the_loop() {
    assert!(!is_quit("Q"));
    assert!(!is_quit("QUIT"));
    assert!(!is_quit("quits"));
    assert!(!is_quit("q uit"));
    assert!(!is_quit("sweater"));
}

fn hit(article: &str, cost: &str, size: &str, pattern: &str) -> ClothesDisplay {
    ClothesDisplay {
        article: article.to_string(),
        cost: cost.to_string(),
        size: size.to_string(),
        pattern: pattern.to_string(),
    }
}

#[test]
fn no_hits_prints_the_no_results_message() {
    let hits: Vec<ClothesDisplay> = Vec::new();
    assert_eq!(render_hits(&hits), "no results...\n");
}

#[test]
fn one_hit_renders_in_the_fixed_layout() {
    let d = hit("sweatshirt", "19.99", "L", "striped");
    let expected = format!(
        "\nresult\n article: {},\n price: {},\n size: {},\n pattern: {}\n\n",
        "sweatshirt", "19.99", "L", "striped"
    );
    assert_eq!(render_one(&d), expected);
    assert_eq!(render_hits(&vec![hit("sweatshirt", "19.99", "L", "striped")]), expected);
}

#[test]
fn several_hits_render_in_order() {
    let hits = vec![hit("a", "1", "S", "x"), hit("b", "2.5", "M", "y")];
    let expected = format!("{}{}", render_one(&hits[0]), render_one(&hits[1]));
    assert_eq!(render_hits(&hits), expected);
    assert!(expected.starts_with("\nresult\n article: a,"));
}

#[test]
fn fixed_messages_are_exact() {
    assert_eq!(
        prompt_text(),
        "Enter a search query or type \"q\" or \"quit\" to quit:\n"
    );
    assert_eq!(exit_message(), "exiting...\n");
}

#[test]
fn configuration_is_exact() {
    let d = config::displayed_attributes();
    assert_eq!(d, vec!["article", "cost", "size", "pattern"]);
    let s = config::searchable_attributes();
    assert_eq!(s, vec!["seaon", "article", "size", "pattern"]);
    let r = config::ranking_rules();
    assert_eq!(r, vec!["words", "typo", "attribute", "exactness", "cost:asc"]);
    assert_eq!(config::index_name(), "clothes");
    assert_eq!(config::primary_key(), "id");
}

#[test]
fn synonym_table_links_joggers_and_sweat_pants() {
    let t = config::synonym_table();
    assert_eq!(t.len(), 3);
    assert_eq!(t[0].0, "sweater");
    assert_eq!(t[0].1, vec!["sweatshirt", "long-sleeve"]);
    assert_eq!(t[1].0, "sweat pants");
    assert_eq!(t[1].1, vec!["joggers"]);
    assert_eq!(t[2].0, "t-shirt");
    assert_eq!(t[2].1, vec!["tees", "tshirt"]);
}
