use report_creation::syntax::{error_summary, syntax_errors, validated};
use report_creation::{paragraph, raw, Report, Section, SyntaxError};

#[test]
fn plan_names_the_markup_file_after_the_title() {
    let report = Report::new("Build & Ship!")
        .add_section(Section::new("Summary").add_block(paragraph("Ready to go.")));

    let plan = report.render_plan().expect("generated markup should be valid");

    assert_eq!(plan.typ_file, "build_ship.typ");
    assert_eq!(plan.pdf_file, None);
    assert_eq!(plan.markup, report.render_markup());
}

#[test]
fn plan_names_the_pdf_file_when_configured() {
    let report = Report::new("PDF please")
        .generate_pdf(true)
        .add_section(Section::new("Summary").add_block(paragraph("PDF output.")));

    let plan = report.render_plan().expect("generated markup should be valid");

    assert_eq!(plan.typ_file, "pdf_please.typ");
    assert_eq!(plan.pdf_file, Some("pdf_please.pdf".to_string()));
}

#[test]
fn plan_fails_with_a_summary_of_all_errors() {
    let broken =
        Report::new("Broken").add_section(Section::new("Faulty").add_block(raw("[#unclosed(")));

    let errors = broken.render_validated().unwrap_err();
    assert!(!errors.is_empty());
    let messages: Vec<String> = errors.iter().map(|err| err.message.clone()).collect();

    let summary = broken.render_plan().unwrap_err();
    assert_eq!(
        summary,
        format!(
            "generated Typst markup contains syntax errors: {}",
            messages.join("; ")
        )
    );
    assert!(summary.contains("unclosed"));
}

#[test]
fn plan_follows_the_given_validation() {
    let report = Report::new("Any Title").generate_pdf(true);
    let plan = report
        .plan(Ok("markup".to_string()))
        .expect("valid markup gives a plan");
    assert_eq!(plan.markup, "markup");
    assert_eq!(plan.typ_file, "any_title.typ");
    assert_eq!(plan.pdf_file, Some("any_title.pdf".to_string()));

    let failure = report.plan(Err(vec![
        SyntaxError {
            message: "first".to_string(),
        },
        SyntaxError {
            message: "second".to_string(),
        },
    ]));
    assert_eq!(
        failure.unwrap_err(),
        "generated Typst markup contains syntax errors: first; second"
    );
}

#[test]
fn error_summary_joins_messages() {
    assert_eq!(
        error_summary(&vec![SyntaxError {
            message: "only".to_string()
        }]),
        "generated Typst markup contains syntax errors: only"
    );
    assert_eq!(
        error_summary(&Vec::new()),
        "generated Typst markup contains syntax errors: "
    );
}

#[test]
fn validated_keeps_markup_only_without_errors() {
    assert_eq!(
        validated("text".to_string(), Vec::new()).ok(),
        Some("text".to_string())
    );
    let errors = vec![SyntaxError {
        message: "bad".to_string(),
    }];
    let outcome = validated("text".to_string(), errors);
    let kept = outcome.unwrap_err();
    assert_eq!(kept.len(), 1);
    assert_eq!(kept[0].message, "bad");
}

#[test]
fn parser_accepts_valid_and_rejects_unclosed_markup() {
    assert!(syntax_errors("= Title\n\nSome *strong* text.\n").is_empty());
    assert!(syntax_errors("").is_empty());
    let errors = syntax_errors("#f(");
    assert!(!errors.is_empty());
    assert!(errors.iter().any(|err| err.message.contains("unclosed")));
    assert!(errors.iter().all(|err| err.message != "#f("));
}
