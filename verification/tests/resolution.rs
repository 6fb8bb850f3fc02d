use hbs_render::cli::{
    check_template_extension, get_data_path, has_template_extension, Args, Output,
};
use hbs_render::failure::Failure;
use std::cell::RefCell;

fn existing(files: &[&str], path: &str) -> Option<String> {
    if files.contains(&path) {
        Some(path.to_string())
    } else {
        None
    }
}

#[test]
fn template_extension_is_hbs() {
    assert!(has_template_extension("/work/template.md.hbs"));
    assert!(has_template_extension("x.hbs"));
    assert!(!has_template_extension("/work/template.md"));
    assert!(!has_template_extension("/work/template"));
    assert!(!has_template_extension(".hbs"));
    assert!(!has_template_extension("/work/x.hbs.bak"));
    assert!(!has_template_extension("/work/x.HBS"));
    assert!(check_template_extension("x.hbs").is_ok());
    assert!(matches!(
        check_template_extension("x.txt"),
        Err(Failure::InvalidTemplateExtension)
    ));
}

#[test]
fn template_without_marker_is_rejected_before_data_is_looked_for() {
    let asked: RefCell<Vec<String>> = RefCell::new(Vec::new());
    let probe = |p: &str| {
        asked.borrow_mut().push(p.to_string());
        Some(p.to_string())
    };
    let res = Args::new("/work/page.md", Some("/work/data.toml"), None, false, probe);
    assert!(matches!(res, Err(Failure::InvalidTemplateExtension)));
    assert_eq!(*asked.borrow(), vec![String::from("/work/page.md")]);
}

#[test]
fn missing_template_is_not_found() {
    let res = Args::new("/work/page.md.hbs", None, None, false, |_p: &str| None);
    assert!(matches!(res, Err(Failure::TemplateNotFound)));
}

#[test]
fn same_name_data_file_comes_before_template_toml() {
    let files = ["dir/x.y.hbs", "dir/x.y.toml", "dir/template.toml"];
    let found = get_data_path("dir/x.y.hbs", Some("dir/missing.toml"), |p: &str| {
        existing(&files, p)
    });
    assert_eq!(found, Some(String::from("dir/x.y.toml")));
}

#[test]
fn given_data_file_comes_first() {
    let files = ["dir/x.y.hbs", "dir/x.y.toml", "dir/template.toml", "other/d.toml"];
    let found = get_data_path("dir/x.y.hbs", Some("other/d.toml"), |p: &str| existing(&files, p));
    assert_eq!(found, Some(String::from("other/d.toml")));
}

#[test]
fn template_toml_is_the_last_resort() {
    let files = ["dir/x.y.hbs", "dir/template.toml"];
    let found = get_data_path("dir/x.y.hbs", None, |p: &str| existing(&files, p));
    assert_eq!(found, Some(String::from("dir/template.toml")));
}

#[test]
fn no_data_file_is_no_error() {
    let asked: RefCell<Vec<String>> = RefCell::new(Vec::new());
    let found = get_data_path("dir/x.y.hbs", Some("d.toml"), |p: &str| {
        asked.borrow_mut().push(p.to_string());
        None
    });
    assert_eq!(found, None);
    assert_eq!(
        *asked.borrow(),
        vec![
            String::from("d.toml"),
            String::from("dir/x.y.toml"),
            String::from("dir/template.toml")
        ]
    );
}

#[test]
fn probe_answer_is_returned_as_given() {
    let found = get_data_path("x.hbs", Some("d.toml"), |p: &str| {
        if p == "d.toml" {
            Some(String::from("/abs/d.toml"))
        } else {
            None
        }
    });
    assert_eq!(found, Some(String::from("/abs/d.toml")));
}

#[test]
fn args_resolve_template_data_and_output() {
    let files = ["/work/template.md.hbs", "/work/template.md.toml"];
    let args = Args::new("/work/template.md.hbs", None, None, false, |p: &str| {
        existing(&files, p)
    })
    .unwrap();
    assert_eq!(args.template, "/work/template.md.hbs");
    assert_eq!(args.data, Some(String::from("/work/template.md.toml")));
    assert!(matches!(args.output, Output::Automatic));
}

#[test]
fn args_use_the_canonical_template_path() {
    let probe = |p: &str| {
        if p == "t.hbs" {
            Some(String::from("/abs/t.hbs"))
        } else if p == "/abs/template.toml" {
            Some(String::from("/abs/template.toml"))
        } else {
            None
        }
    };
    let args = Args::new("t.hbs", None, Some(String::from("out.txt")), false, probe).unwrap();
    assert_eq!(args.template, "/abs/t.hbs");
    assert_eq!(args.data, Some(String::from("/abs/template.toml")));
    match args.output {
        Output::Specific(path) => assert_eq!(path, "out.txt"),
        other => panic!("unexpected output {:?}", other),
    }
}

#[test]
fn stdout_is_selected_by_its_flag() {
    let args = Args::new("t.hbs", None, None, true, |p: &str| {
        if p == "t.hbs" {
            Some(p.to_string())
        } else {
            None
        }
    })
    .unwrap();
    assert!(matches!(args.output, Output::Stdout));
    assert_eq!(args.data, None);
}

#[test]
fn failure_messages() {
    assert_eq!(Failure::TemplateNotFound.message(), "Template does not exist");
    assert_eq!(
        Failure::InvalidTemplateExtension.message(),
        "Template is not a .hbs file"
    );
    assert_eq!(
        Failure::DataParse(String::from("x")).message(),
        "Could not parse data: x"
    );
    assert_eq!(
        Failure::Render(String::from("y")).message(),
        "Could not render template: y"
    );
    assert_eq!(
        Failure::FilenameRender(String::from("z")).message(),
        "Could not render file name: z"
    );
}
