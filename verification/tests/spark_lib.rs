use spark::baud::{baud_rate_at, baud_rate_labels, initial_baud_rate};
use spark::common::{notify_args, NotiyConfig, NOTIFY_PROGRAM};
use spark::config::{ColorTheme, COLOR_THEME, DEV_MODE, GETTEXT_PACKAGE, VERSION};
use spark::connection::{connect_button_class, connect_button_label, ConnectAction, ConnectionState};
use spark::port::{placeholder_port_path, socat_link_arg, DEFAULT_DEVICE_PATH};
use spark::report::{decimal_string, format_sent_report, sent_command_report};
use spark::text::{char_is_white_space, trim_white_space};

#[test]
fn default_notification_settings() {
    let nc = NotiyConfig::default();
    assert_eq!(nc.app_name, "Spark");
    assert_eq!(nc.summary, "%Default Summary%");
    assert_eq!(nc.body, "%Default Body Text%");
}

#[test]
fn notify_arguments_of_default_settings() {
    let args = notify_args(NotiyConfig::default());
    assert_eq!(args, vec!["--app-name=Spark".to_string(), "%Default Summary%".to_string(), "%Default Body Text%".to_string()]);
    assert_eq!(NOTIFY_PROGRAM, "notify-send");
}

#[test]
fn notify_arguments_keep_text_verbatim() {
    let nc = NotiyConfig {
        app_name: "My App".to_string(),
        summary: "Port lost".to_string(),
        body: "".to_string(),
    };
    assert_eq!(notify_args(nc), vec!["--app-name=My App".to_string(), "Port lost".to_string(), "".to_string()]);
}

#[test]
fn build_settings() {
    assert_eq!(VERSION, "1.1.0");
    assert_eq!(GETTEXT_PACKAGE, "spark");
    assert!(DEV_MODE);
    assert!(COLOR_THEME == ColorTheme::Accent);
}

#[test]
fn theme_classes() {
    assert_eq!(ColorTheme::Accent.action_class(), "suggested-action");
    assert_eq!(ColorTheme::Sparking.action_class(), "yel");
    assert_eq!(ColorTheme::Accent.row_class(), "acc");
    assert_eq!(ColorTheme::Sparking.row_class(), "pur");
}

#[test]
fn labels_name_the_selected_rates() {
    let labels = baud_rate_labels();
    assert_eq!(labels.len(), serial2::COMMON_BAUD_RATES.len());
    for (i, label) in labels.iter().enumerate() {
        let rate = baud_rate_at(i as u32);
        assert_eq!(rate, serial2::COMMON_BAUD_RATES[i]);
        assert_eq!(label.parse::<u32>().unwrap(), rate);
        assert_eq!(decimal_string(rate), *label);
    }
}

#[test]
fn first_and_last_rates() {
    assert_eq!(initial_baud_rate(), 4800);
    assert_eq!(baud_rate_at(0), 4800);
    assert_eq!(baud_rate_at(5), 115200);
    assert_eq!(baud_rate_at(13), 2000000);
}

#[test]
fn connect_then_disconnect() {
    let mut state = ConnectionState::new();
    assert!(!state.is_connected());
    assert_eq!(state.click(true), ConnectAction::OpenEnteredPort);
    assert!(state.is_connected());
    assert_eq!(state.click(false), ConnectAction::OpenPlaceholderPort);
    assert!(!state.is_connected());
}

#[test]
fn missing_path_reveals_banner_only() {
    let mut state = ConnectionState::new();
    assert_eq!(state.click(false), ConnectAction::RevealMissingPathBanner);
    assert!(!state.is_connected());
    assert_eq!(state.click(false), ConnectAction::RevealMissingPathBanner);
    assert!(!state.is_connected());
}

#[test]
fn connected_exactly_when_entered_port_opened() {
    let mut state = ConnectionState::new();
    for exists in [true, false, false, true, true, false, true] {
        let action = state.click(exists);
        assert_eq!(state.is_connected(), action == ConnectAction::OpenEnteredPort);
    }
}

#[test]
fn button_looks() {
    assert_eq!(connect_button_label(false), "Connect");
    assert_eq!(connect_button_label(true), "Disconnect");
    assert_eq!(connect_button_class(true, ColorTheme::Accent), "destructive-action");
    assert_eq!(connect_button_class(true, ColorTheme::Sparking), "destructive-action");
    assert_eq!(connect_button_class(false, ColorTheme::Accent), "suggested-action");
    assert_eq!(connect_button_class(false, ColorTheme::Sparking), "yel");
}

#[test]
fn trimming_matches_std() {
    let samples = [
        "",
        "   ",
        "/tmp/dev.labellum.spark/tmp.a1B\n",
        "\t\r\n  x y \u{85}",
        "\u{3000}\u{2028}a\u{a0}b\u{202f}",
        "no-space",
        "\u{200b}zero width is kept\u{200b}",
        "\u{1680}\u{2000}\u{200a}\u{2029}\u{205f}mid\u{0b}\u{0c}",
    ];
    for s in samples {
        assert_eq!(trim_white_space(s), s.trim());
    }
}

#[test]
fn white_space_class_matches_std() {
    for v in 0u32..0x3100 {
        if let Some(c) = char::from_u32(v) {
            assert_eq!(char_is_white_space(c), c.is_whitespace(), "{:x}", v);
        }
    }
    assert!(!char_is_white_space('\u{10ffff}'));
}

#[test]
fn placeholder_paths() {
    assert_eq!(placeholder_port_path("/tmp/dev.labellum.spark/tmp.Xy9\n"), "/tmp/dev.labellum.spark/tmp.Xy9");
    assert_eq!(socat_link_arg("/tmp/dev.labellum.spark/tmp.Xy9\n"), "pty,raw,echo=0,link=/tmp/dev.labellum.spark/tmp.Xy9");
    assert_eq!(socat_link_arg(""), "pty,raw,echo=0,link=");
    assert_eq!(DEFAULT_DEVICE_PATH, "/dev/ttyACM0");
}

#[test]
fn decimal_notation() {
    assert_eq!(decimal_string(0), "0");
    assert_eq!(decimal_string(7), "7");
    assert_eq!(decimal_string(10), "10");
    assert_eq!(decimal_string(9600), "9600");
    assert_eq!(decimal_string(u32::MAX), "4294967295");
}

#[test]
fn report_line() {
    let line = sent_command_report("go\"1\n", 9600, "/dev/pts/3");
    let expected = format!(
        "📨 Sent command \x1b[32;3m{:?}\x1b[0m with a baudrate of \x1b[33;1m{}\x1b[0m to \x1b[30;44;1m{}\x1b[0m",
        "go\"1\n", 9600, "/dev/pts/3"
    );
    assert_eq!(line, expected);
    assert_eq!(
        format_sent_report("\"x\"", 115200, "p"),
        "📨 Sent command \x1b[32;3m\"x\"\x1b[0m with a baudrate of \x1b[33;1m115200\x1b[0m to \x1b[30;44;1mp\x1b[0m"
    );
}
