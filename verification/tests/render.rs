use anbennar_wiki::imagemagick::{Conversion, ImageMagick};
use anbennar_wiki::utils::{htmlify, Json, Member, title_case};
use anbennar_wiki::wiki::{edit_summary, has_title, redirect, token_action, TokenAction, uses_after};

fn member(key: &str, value: Json) -> Member {
    Member { key: key.to_string(), value }
}

fn text(value: &str) -> Json {
    Json::Text(value.to_string())
}

#[test]
fn test_htmlify() {
    let potential = Json::Object(vec![
        member("has_reform", text("feudalism_reform")),
        member("OR", Json::Object(vec![member("tag", Json::Array(vec![text("A01"), text("A02")]))])),
        member("is_vassal", Json::Bool(false)),
        member("num_of_cities", Json::Number("5".to_string())),
    ]);
    assert_eq!(
        htmlify(&potential),
        "<ul><li>Have reform: feudalism_reform</li></ul><ul><li>One of the following: <ul><li>tag: A01</li></ul><ul><li>tag: A02</li></ul></li></ul><ul><li>is_vassal: false</li></ul><ul><li>num_of_cities: <ul><li>5</li></ul></li></ul>"
    );
}

#[test]
fn htmlify_of_each_shape() {
    assert_eq!(htmlify(&text("plain")), "plain");
    assert_eq!(htmlify(&Json::Bool(true)), "true");
    assert_eq!(htmlify(&Json::Bool(false)), "false");
    assert_eq!(htmlify(&Json::Null), "<ul><li>null</li></ul>");
    assert_eq!(htmlify(&Json::Number("1.5".to_string())), "<ul><li>1.5</li></ul>");
    assert_eq!(htmlify(&Json::Array(vec![])), "<ul></ul>");
    assert_eq!(
        htmlify(&Json::Array(vec![text("a"), Json::Array(vec![text("b")])])),
        "<ul><li>a</li><li><ul><li>b</li></ul></li></ul>"
    );
    assert_eq!(htmlify(&Json::Object(vec![])), "");
    assert_eq!(
        htmlify(&Json::Object(vec![member("NOT", Json::Array(vec![]))])),
        ""
    );
    assert_eq!(
        htmlify(&Json::Object(vec![member("else", text("x")), member("if", text("y"))])),
        "<ul><li>else: x</li></ul><ul><li>if: y</li></ul>"
    );
}

#[test]
fn title_case_raises_the_first_character() {
    assert_eq!(title_case("monarchy"), "Monarchy");
    assert_eq!(title_case("Monarchy"), "Monarchy");
    assert_eq!(title_case("m"), "M");
    assert_eq!(title_case(""), "");
    assert_eq!(title_case("\u{df}eta"), "SSeta");
    assert_eq!(title_case("1st"), "1st");
}

#[test]
fn test_convert_to_png() {
    let magick = ImageMagick::default();
    assert_eq!(magick.path, "./magick/texconv.exe");
    let plan = magick.plan("./anbennar/gfx/flags/A03.tga").unwrap();
    assert_eq!(plan.program, "./magick/texconv.exe");
    assert_eq!(plan.target, "./anbennar/gfx/flags/A03.png");
    assert_eq!(
        plan.arguments,
        vec![
            "./anbennar/gfx/flags/A03.tga",
            "-nologo",
            "-ft",
            "png",
            "-y",
            "-o",
            "./anbennar/gfx/flags",
            "-srgb",
            "-f",
            "R8G8B8A8_UNORM_SRGB"
        ]
    );
    let report = magick.convert(true, true, "ignored");
    assert!(!magick.convert_to_png(plan, &report).is_none());
}

#[test]
fn a_conversion_that_fails_gives_no_png() {
    let magick = ImageMagick::new("texconv");
    assert_eq!(magick.path, "texconv");
    assert_eq!(magick.convert(true, true, "out"), "");
    assert_eq!(magick.convert(true, false, "bad header"), "bad header");
    assert_eq!(magick.convert(false, false, ""), "error when converting");
    assert_eq!(magick.convert(false, true, "x"), "error when converting");
    let plan = || Conversion {
        program: "texconv".to_string(),
        arguments: vec![],
        target: "out/a.png".to_string(),
    };
    assert_eq!(magick.convert_to_png(plan(), ""), Some("out/a.png".to_string()));
    assert_eq!(magick.convert_to_png(plan(), "bad header"), None);
    assert!(magick.plan("").is_none());
    assert!(magick.plan("/").is_none());
    assert_eq!(magick.plan("flag.tga").unwrap().target, "flag.png");
    assert_eq!(magick.plan("dir/noext").unwrap().target, "dir/noext.png");
}

#[test]
fn the_token_is_used_while_it_is_fresh() {
    assert_eq!(token_action(true, 0, 0), TokenAction::Reuse);
    assert_eq!(token_action(true, 119, 127), TokenAction::Reuse);
    assert_eq!(token_action(true, 120, 0), TokenAction::Fetch);
    assert_eq!(token_action(false, 0, 0), TokenAction::Fetch);
    assert_eq!(token_action(true, 0, 128), TokenAction::LoginAndFetch);
    assert_eq!(token_action(false, 500, 200), TokenAction::LoginAndFetch);
    assert_eq!(uses_after(TokenAction::Reuse, 5), 6);
    assert_eq!(uses_after(TokenAction::Fetch, 0), 1);
    assert_eq!(uses_after(TokenAction::LoginAndFetch, 128), 1);
}

#[test]
fn what_an_edit_says() {
    assert_eq!(edit_summary("Countries"), "Add/edit Countries");
    assert_eq!(redirect("Rosande ideas"), "#REDIRECT [[Rosande ideas]]");
    assert!(has_title("Countries"));
    assert!(has_title("  x "));
    assert!(!has_title(""));
    assert!(!has_title(" \t\n"));
}

#[test]
fn the_parts_of_a_plan() {
    assert_eq!(ImageMagick::png_name("A03"), "A03.png");
    assert_eq!(ImageMagick::png_name(""), ".png");
    let magick = ImageMagick::new("conv");
    let plan = magick.conversion("in/a.tga", "in".to_string(), "in/a.png".to_string());
    assert_eq!(plan.program, "conv");
    assert_eq!(plan.target, "in/a.png");
    assert_eq!(plan.arguments.len(), 10);
    assert_eq!(plan.arguments[0], "in/a.tga");
    assert_eq!(plan.arguments[6], "in");
    assert_eq!(plan.arguments[9], "R8G8B8A8_UNORM_SRGB");
}

#[test]
fn what_is_made_of_the_answers_of_the_platform() {
    assert_eq!(
        ImageMagick::target_parts(Some("A03".to_string()), Some("gfx/flags".to_string())),
        Some(("gfx/flags".to_string(), "A03.png".to_string()))
    );
    assert_eq!(ImageMagick::target_parts(None, Some("gfx".to_string())), None);
    assert_eq!(ImageMagick::target_parts(Some("A03".to_string()), None), None);
    assert_eq!(ImageMagick::target_parts(None, None), None);
    let magick = ImageMagick::new("conv");
    assert!(magick.plan_for("in/a.tga", "in".to_string(), None).is_none());
    let plan = magick.plan_for("in/a.tga", "in".to_string(), Some("in/a.png".to_string())).unwrap();
    assert_eq!(plan, magick.conversion("in/a.tga", "in".to_string(), "in/a.png".to_string()));
    assert_eq!(plan.target, "in/a.png");
    assert_eq!(plan.arguments[6], "in");
}
