use pomodoro::{Base16, Theme};

#[test]
fn default_theme_is_catppuccin_macchiato() {
    let t = Theme::default();
    assert_eq!(t.scheme, "Catppuccin Macchiato");
    assert_eq!(t.author, "https://github.com/catppuccin/catppuccin");
}

#[test]
fn accent_slots_hold_their_hex_codes() {
    let t = Theme::default();
    assert_eq!(t.get_color(Base16::Base05), "#cad3f5");
    assert_eq!(t.get_color(Base16::Base0B), "#a6da95");
    assert_eq!(t.get_color(Base16::Base0C), "#8bd5ca");
}

#[test]
fn every_slot_is_reachable() {
    let t = Theme::default();
    let all = [
        (Base16::Base00, "#24273a"),
        (Base16::Base01, "#1e2030"),
        (Base16::Base02, "#363a4f"),
        (Base16::Base03, "#494d64"),
        (Base16::Base04, "#5b6078"),
        (Base16::Base05, "#cad3f5"),
        (Base16::Base06, "#f4dbd6"),
        (Base16::Base07, "#b7bdf8"),
        (Base16::Base08, "#ed8796"),
        (Base16::Base09, "#f5a97f"),
        (Base16::Base0A, "#eed49f"),
        (Base16::Base0B, "#a6da95"),
        (Base16::Base0C, "#8bd5ca"),
        (Base16::Base0D, "#8aadf4"),
        (Base16::Base0E, "#c6a0f6"),
        (Base16::Base0F, "#f0c6c6"),
    ];
    for (slot, code) in all {
        assert_eq!(t.get_color(slot), code);
    }
}
