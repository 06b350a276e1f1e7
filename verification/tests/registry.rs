use ghostty_lsp::definitions::{get_config_param_description, FALLBACK};

/// The keys of the registry, those that share a text side by side.
fn alias_groups() -> Vec<Vec<&'static str>> {
    vec![
        vec!["font-family", "font-family-bold", "font-family-italic", "font-family-bold-italic"],
        vec!["font-style", "font-style-bold", "font-style-italic", "font-style-bold-italic"],
        vec!["font-feature"],
        vec!["font-size"],
        vec![
            "font-variation",
            "font-variation-bold",
            "font-variation-italic",
            "font-variation-bold-italic",
        ],
        vec!["font-codepoint-map"],
        vec!["font-thicken"],
        vec![
            "adjust-cell-width",
            "adjust-cell-height",
            "adjust-font-baseline",
            "adjust-underline-position",
            "adjust-underline-thickness",
            "adjust-strikethrough-position",
            "adjust-strikethrough-thickness",
        ],
        vec!["theme"],
        vec!["background"],
        vec!["foreground"],
        vec!["selection-foreground", "selection-background"],
        vec!["selection-invert-fg-bg"],
        vec!["minimum-contrast"],
        vec!["palette"],
        vec!["cursor-color"],
        vec!["cursor-opacity"],
        vec!["cursor-style"],
        vec!["cursor-style-blink"],
        vec!["cursor-text"],
        vec!["mouse-hide-while-typing"],
        vec!["mouse-shift-capture"],
        vec!["background-opacity"],
        vec!["background-blur-radius"],
        vec!["unfocused-split-opacity"],
        vec!["unfocused-split-fill"],
        vec!["command"],
        vec!["link"],
        vec!["link-url"],
        vec!["fullscreen"],
        vec!["title"],
        vec!["class"],
        vec!["x11-instance-name"],
        vec!["working-directory"],
        vec!["keybind"],
        vec!["window-padding-x"],
        vec!["window-padding-y"],
        vec!["window-padding-balance"],
        vec!["window-inherit-working-directory"],
        vec!["window-inherit-font-size"],
        vec!["window-decoration"],
        vec!["window-theme"],
        vec!["window-height"],
        vec!["window-width"],
        vec!["window-step-resize"],
        vec!["gtk-titlebar"],
        vec!["clipboard-read", "clipboard-write"],
        vec!["clipboard-trim-trailing-spaces"],
        vec!["clipboard-paste-protection"],
        vec!["clipboard-paste-bracketed-safe"],
        vec!["image-storage-limit"],
        vec!["copy-on-select"],
        vec!["click-repeat-interval"],
        vec!["config-file"],
        vec!["confirm-close-surface"],
        vec!["quit-after-last-window-closed"],
        vec!["shell-integration"],
        vec!["shell-integration-features"],
        vec!["osc-color-report-format"],
        vec!["vt-kam-allowed"],
        vec!["customer-shader"],
        vec!["customer-shader-animation"],
        vec!["macos-non-native-fullscren"],
        vec!["macos-option-as-alt"],
        vec!["gtk-single-instance"],
        vec!["gtk-wide-tabs"],
        vec!["gtk-adwaita"],
        vec!["desktop-notifications"],
    ]
}

#[test]
fn fallback_is_the_documented_sentinel() {
    assert_eq!(FALLBACK, "No description found");
}

#[test]
fn font_size_has_its_description() {
    assert_eq!(get_config_param_description("font-size"), "Font size in points");
}

#[test]
fn background_and_foreground_have_their_descriptions() {
    assert_eq!(get_config_param_description("background"), "Background color for the window");
    assert_eq!(get_config_param_description("foreground"), "Foreground color for the window");
}

#[test]
fn a_text_of_several_lines_comes_back_whole() {
    assert_eq!(
        get_config_param_description("cursor-text"),
        "The color of the text under the cursor. If this is not set, a default\nwill be chosen.\n"
    );
    assert_eq!(
        get_config_param_description("window-decoration"),
        " If false, windows won't have native decorations, i.e. titlebar and\n borders.\n"
    );
    assert_eq!(
        get_config_param_description("selection-background"),
        "The foreground and background color for selection. If this is not\nset, then the selection color is just the inverted window background\nand foreground (note: not to be confused with the cell bg/fg).\n"
    );
}

#[test]
fn the_last_entry_is_reached() {
    assert_eq!(
        get_config_param_description("desktop-notifications"),
        " If true (default), applications running in the terminal can show desktop\n notifications using certain escape sequences such as OSC 9 or OSC 777.\n"
    );
}

#[test]
fn every_key_has_a_text_of_its_own_group() {
    let groups = alias_groups();
    assert_eq!(groups.len(), 68);
    for group in &groups {
        let text = get_config_param_description(group[0]);
        assert_ne!(text, FALLBACK);
        assert!(!text.is_empty());
        for alias in group {
            assert_eq!(get_config_param_description(alias), text, "alias {alias}");
        }
    }
}

#[test]
fn font_family_variants_share_one_text() {
    let text = get_config_param_description("font-family");
    assert!(text.starts_with("The font families to use."));
    assert!(text.ends_with("i.e. new windows, tabs, etc."));
    assert_eq!(get_config_param_description("font-family-bold"), text);
    assert_eq!(get_config_param_description("font-family-italic"), text);
    assert_eq!(get_config_param_description("font-family-bold-italic"), text);
}

#[test]
fn no_key_is_listed_twice() {
    let mut seen = std::collections::HashSet::new();
    for group in alias_groups() {
        for key in group {
            assert!(seen.insert(key), "{key} is listed twice");
        }
    }
    assert_eq!(seen.len(), 85);
}

#[test]
fn unknown_keys_get_the_fallback() {
    for key in ["", "font", "font-sizes", "no-such-key", "=", "font-size=12", "théme", "字体"] {
        assert_eq!(get_config_param_description(key), "No description found", "key {key:?}");
    }
}

#[test]
fn keys_are_matched_verbatim() {
    for key in ["Font-Size", "FONT-SIZE", " font-size", "font-size ", "font_size", "font-size\n"] {
        assert_eq!(get_config_param_description(key), FALLBACK, "key {key:?}");
    }
}

#[test]
fn keys_keep_the_spelling_of_the_registry() {
    assert_ne!(get_config_param_description("customer-shader"), FALLBACK);
    assert_eq!(get_config_param_description("custom-shader"), FALLBACK);
    assert_ne!(get_config_param_description("macos-non-native-fullscren"), FALLBACK);
    assert_eq!(get_config_param_description("macos-non-native-fullscreen"), FALLBACK);
}

#[test]
fn the_crate_root_offers_the_lookup_too() {
    assert_eq!(ghostty_lsp::get_config_param_description("theme"), get_config_param_description("theme"));
    assert_eq!(ghostty_lsp::get_config_param_description("nothing"), FALLBACK);
}
