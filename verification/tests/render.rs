use commentize::layout::{fits, measure, BoxStyle, LayoutOptions};
use commentize::render::{insertion_text, render, wall_of, RenderError};
use commentize::text::{longest_len, push_repeated};

fn lines(v: &[&str]) -> Vec<String> {
    v.iter().map(|s| s.to_string()).collect()
}

#[test]
fn default_block_box_around_one_line() {
    let out = render(&lines(&["abc"]), &LayoutOptions::default()).unwrap();
    assert_eq!(out, "/*********\n *  abc  *\n *********/\n");
}

#[test]
fn empty_content_is_refused() {
    let r = render(&Vec::new(), &LayoutOptions::default());
    assert_eq!(r, Err(RenderError::EmptyContent));
}

#[test]
fn width_of_uniform_lines_with_default_options() {
    let content = lines(&["abcd", "efgh", "ijkl"]);
    let opts = LayoutOptions::default();
    let m = measure(&content, &opts).unwrap();
    assert_eq!(m.longest, 4);
    assert_eq!(m.inner_width, 8);
    assert_eq!(m.row_width, 10);
    assert_eq!(m.width, 9);
    assert_eq!(m.width, m.longest + 2 * opts.width_pad + 2 * m.wall_len - 1);
    let out = render(&content, &opts).unwrap();
    assert_eq!(
        out,
        "/**********\n *  abcd  *\n *  efgh  *\n *  ijkl  *\n **********/\n"
    );
}

#[test]
fn width_without_walls_is_longest_and_padding_less_one() {
    let content = lines(&["abcd"]);
    let mut opts = LayoutOptions::default();
    opts.wall = Some(String::new());
    let m = measure(&content, &opts).unwrap();
    assert_eq!(m.wall_len, 0);
    assert_eq!(m.width, 7);
    assert_eq!(m.width, m.longest + 2 * opts.width_pad - 1);
    let out = render(&content, &opts).unwrap();
    assert_eq!(out, "/********\n   abcd  \n ********/\n");
}

#[test]
fn multi_byte_characters_count_once() {
    let content = lines(&["é", "ab"]);
    assert_eq!(longest_len(&content), 2);
    let out = render(&content, &LayoutOptions::default()).unwrap();
    assert_eq!(out, "/********\n *  é   *\n *  ab  *\n ********/\n");
    let rows: Vec<usize> = out.lines().skip(1).take(2).map(|l| l.chars().count()).collect();
    assert_eq!(rows, vec![9, 9]);
}

#[test]
fn multi_byte_wall_counts_by_characters() {
    let mut opts = LayoutOptions::default();
    opts.wall = Some("║".to_string());
    let out = render(&lines(&["abc"]), &opts).unwrap();
    assert_eq!(out, "/*********\n ║  abc  ║\n *********/\n");
}

#[test]
fn title_longer_than_the_lines_sets_the_width() {
    let content = lines(&["ab", "c"]);
    let mut opts = LayoutOptions::default();
    opts.title = Some("Title".to_string());
    let m = measure(&content, &opts).unwrap();
    assert_eq!(m.longest, 5);
    assert_eq!(m.title_len, 5);
    let out = render(&content, &opts).unwrap();
    assert_eq!(
        out,
        "***********\n*  Title  *\n/***********\n *  ab     *\n *  c      *\n ***********/\n"
    );
}

#[test]
fn title_is_centred_with_the_odd_column_on_the_right() {
    let mut opts = LayoutOptions::default();
    opts.title = Some("Hi".to_string());
    let out = render(&lines(&["abc"]), &opts).unwrap();
    assert_eq!(out, "*********\n*  Hi   *\n/*********\n *  abc  *\n *********/\n");
}

#[test]
fn empty_title_is_no_title() {
    let mut opts = LayoutOptions::default();
    opts.title = Some(String::new());
    let out = render(&lines(&["abc"]), &opts).unwrap();
    assert_eq!(out, "/*********\n *  abc  *\n *********/\n");
}

#[test]
fn line_comment_style() {
    let mut opts = LayoutOptions::default();
    opts.style = BoxStyle::LineComment;
    let out = render(&lines(&["abc"]), &opts).unwrap();
    assert_eq!(out, "/************\n///  abc  ///\n************/\n");
    assert_eq!(wall_of(&opts), "///");
}

#[test]
fn box_only_style_moved_to_the_right() {
    let mut opts = LayoutOptions::default();
    opts.style = BoxStyle::BoxOnly;
    opts.symbol = "#".to_string();
    opts.move_offset = 2;
    let out = render(&lines(&["abc", "de"]), &opts).unwrap();
    assert_eq!(out, "  #########\n  #  abc  #\n  #  de   #\n  #########\n");
}

#[test]
fn wall_differs_from_the_border() {
    let mut opts = LayoutOptions::default();
    opts.symbol = "=-".to_string();
    opts.wall = Some("||".to_string());
    opts.width_pad = 0;
    let out = render(&lines(&["abc"]), &opts).unwrap();
    assert_eq!(out, "/*======\n ||abc||\n ======*/\n");
}

#[test]
fn height_and_side_padding() {
    let mut opts = LayoutOptions::default();
    opts.height_pad = 1;
    opts.left_pad = 1;
    opts.right_pad = 3;
    opts.width_pad = 1;
    let out = render(&lines(&["abc", "d"]), &opts).unwrap();
    assert_eq!(
        out,
        "/***********\n *         *\n *  abc    *\n *  d      *\n *         *\n ***********/\n"
    );
}

#[test]
fn append_mode_starts_on_a_new_line() {
    let mut opts = LayoutOptions::default();
    opts.append_mode = true;
    let out = render(&lines(&["abc"]), &opts).unwrap();
    assert_eq!(out, "\n/*********\n *  abc  *\n *********/\n");
    assert_eq!(insertion_text(out.clone(), true), out);
}

#[test]
fn prepended_text_ends_with_a_blank_line() {
    let out = render(&lines(&["abc"]), &LayoutOptions::default()).unwrap();
    assert_eq!(insertion_text(out, false), "/*********\n *  abc  *\n *********/\n\n");
}

#[test]
fn options_that_leave_no_column_do_not_fit() {
    let mut opts = LayoutOptions::default();
    opts.wall = Some(String::new());
    opts.width_pad = 0;
    assert!(!fits(&lines(&[""]), &opts));
    assert!(fits(&lines(&["a"]), &opts));
    opts.width_pad = usize::MAX;
    assert!(!fits(&lines(&["a"]), &opts));
    let mut no_symbol = LayoutOptions::default();
    no_symbol.symbol = String::new();
    assert!(!fits(&lines(&["a"]), &no_symbol));
}

#[test]
fn repeated_characters_are_appended() {
    let mut s = String::from("ab");
    push_repeated(&mut s, '-', 3);
    assert_eq!(s, "ab---");
    push_repeated(&mut s, '-', 0);
    assert_eq!(s, "ab---");
}
