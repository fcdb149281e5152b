use colored::{Color, Styles};
use pglogfmt::severity::Severity;
use pglogfmt::style::TextStyle;

#[test]
fn each_level_name_has_its_severity() {
    let table = [
        ("ERROR", Severity::Error),
        ("WARNING", Severity::Warning),
        ("LOG", Severity::Log),
        ("INFO", Severity::Info),
        ("FATAL", Severity::Fatal),
        ("PANIC", Severity::Panic),
        ("DEBUG1", Severity::Unknown),
        ("", Severity::Unknown),
        ("error", Severity::Unknown),
        ("ERROR ", Severity::Unknown),
    ];
    for (name, severity) in table {
        assert_eq!(Severity::from_name(name), severity, "{}", name);
    }
}

#[test]
fn each_severity_has_its_style() {
    let bold_red =
        TextStyle { foreground: Some(Color::Red), background: None, weight: Styles::Bold };
    let bold_yellow =
        TextStyle { foreground: Some(Color::Yellow), background: None, weight: Styles::Bold };
    let green =
        TextStyle { foreground: Some(Color::Green), background: None, weight: Styles::Clear };
    let alarm = TextStyle {
        foreground: Some(Color::White),
        background: Some(Color::Red),
        weight: Styles::Bold,
    };
    let none = TextStyle { foreground: None, background: None, weight: Styles::Clear };
    let table = [
        (Severity::Error, bold_red),
        (Severity::Warning, bold_yellow),
        (Severity::Log, green),
        (Severity::Info, green),
        (Severity::Fatal, alarm),
        (Severity::Panic, alarm),
        (Severity::Unknown, none),
    ];
    for (severity, style) in table {
        assert_eq!(severity.style(), style, "{:?}", severity);
    }
}

#[test]
fn severity_mapping_is_stable() {
    for name in ["ERROR", "WARNING", "LOG", "INFO", "FATAL", "PANIC", "NOTICE"] {
        assert_eq!(Severity::from_name(name).style(), Severity::from_name(name).style());
    }
}

#[test]
fn style_constructors() {
    assert_eq!(
        TextStyle::plain(),
        TextStyle { foreground: None, background: None, weight: Styles::Clear }
    );
    assert_eq!(
        TextStyle::dimmed(),
        TextStyle { foreground: None, background: None, weight: Styles::Dimmed }
    );
    assert_eq!(
        TextStyle::colored(Color::Cyan),
        TextStyle { foreground: Some(Color::Cyan), background: None, weight: Styles::Clear }
    );
    assert_eq!(
        TextStyle::bold(Color::Cyan),
        TextStyle { foreground: Some(Color::Cyan), background: None, weight: Styles::Bold }
    );
}
