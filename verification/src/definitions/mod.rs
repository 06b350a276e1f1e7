//! The registry of configuration keys: the spellings it knows and the text
//! that documents each of them.

pub mod laws;
pub mod literals;
pub mod texts;

use crate::strings::str_eq;
use vstd::prelude::*;

verus! {

/// The text given for a key that the registry does not know.
pub const FALLBACK: &'static str = "No description found";

/// One entry of the registry: the spellings that share a text, and that text.
pub struct Entry {
    pub keys: Set<Seq<char>>,
    pub text: Seq<char>,
}

/// The registry, entry by entry.
pub open spec fn registry() -> Seq<Entry> {
    seq![
        Entry {
            keys: set![
                "font-family"@,
                "font-family-bold"@,
                "font-family-italic"@,
                "font-family-bold-italic"@,
            ],
            text: texts::FONT_FAMILY@,
        },
        Entry {
            keys: set![
                "font-style"@,
                "font-style-bold"@,
                "font-style-italic"@,
                "font-style-bold-italic"@,
            ],
            text: texts::FONT_STYLE@,
        },
        Entry { keys: set!["font-feature"@], text: texts::FONT_FEATURE@ },
        Entry { keys: set!["font-size"@], text: texts::FONT_SIZE@ },
        Entry {
            keys: set![
                "font-variation"@,
                "font-variation-bold"@,
                "font-variation-italic"@,
                "font-variation-bold-italic"@,
            ],
            text: texts::FONT_VARIATION@,
        },
        Entry { keys: set!["font-codepoint-map"@], text: texts::FONT_CODEPOINT_MAP@ },
        Entry { keys: set!["font-thicken"@], text: texts::FONT_THICKEN@ },
        Entry {
            keys: set![
                "adjust-cell-width"@,
                "adjust-cell-height"@,
                "adjust-font-baseline"@,
                "adjust-underline-position"@,
                "adjust-underline-thickness"@,
                "adjust-strikethrough-position"@,
                "adjust-strikethrough-thickness"@,
            ],
            text: texts::ADJUST_METRICS@,
        },
        Entry { keys: set!["theme"@], text: texts::THEME@ },
        Entry { keys: set!["background"@], text: texts::BACKGROUND@ },
        Entry { keys: set!["foreground"@], text: texts::FOREGROUND@ },
        Entry {
            keys: set!["selection-foreground"@, "selection-background"@],
            text: texts::SELECTION_COLORS@,
        },
        Entry { keys: set!["selection-invert-fg-bg"@], text: texts::SELECTION_INVERT_FG_BG@ },
        Entry { keys: set!["minimum-contrast"@], text: texts::MINIMUM_CONTRAST@ },
        Entry { keys: set!["palette"@], text: texts::PALETTE@ },
        Entry { keys: set!["cursor-color"@], text: texts::CURSOR_COLOR@ },
        Entry { keys: set!["cursor-opacity"@], text: texts::CURSOR_OPACITY@ },
        Entry { keys: set!["cursor-style"@], text: texts::CURSOR_STYLE@ },
        Entry { keys: set!["cursor-style-blink"@], text: texts::CURSOR_STYLE_BLINK@ },
        Entry { keys: set!["cursor-text"@], text: texts::CURSOR_TEXT@ },
        Entry { keys: set!["mouse-hide-while-typing"@], text: texts::MOUSE_HIDE_WHILE_TYPING@ },
        Entry { keys: set!["mouse-shift-capture"@], text: texts::MOUSE_SHIFT_CAPTURE@ },
        Entry { keys: set!["background-opacity"@], text: texts::BACKGROUND_OPACITY@ },
        Entry { keys: set!["background-blur-radius"@], text: texts::BACKGROUND_BLUR_RADIUS@ },
        Entry { keys: set!["unfocused-split-opacity"@], text: texts::UNFOCUSED_SPLIT_OPACITY@ },
        Entry { keys: set!["unfocused-split-fill"@], text: texts::UNFOCUSED_SPLIT_FILL@ },
        Entry { keys: set!["command"@], text: texts::COMMAND@ },
        Entry { keys: set!["link"@], text: texts::LINK@ },
        Entry { keys: set!["link-url"@], text: texts::LINK_URL@ },
        Entry { keys: set!["fullscreen"@], text: texts::FULLSCREEN@ },
        Entry { keys: set!["title"@], text: texts::TITLE@ },
        Entry { keys: set!["class"@], text: texts::CLASS@ },
        Entry { keys: set!["x11-instance-name"@], text: texts::X11_INSTANCE_NAME@ },
        Entry { keys: set!["working-directory"@], text: texts::WORKING_DIRECTORY@ },
        Entry { keys: set!["keybind"@], text: texts::KEYBIND@ },
        Entry { keys: set!["window-padding-x"@], text: texts::WINDOW_PADDING@ },
        Entry { keys: set!["window-padding-y"@], text: texts::WINDOW_PADDING@ },
        Entry { keys: set!["window-padding-balance"@], text: texts::WINDOW_PADDING_BALANCE@ },
        Entry {
            keys: set!["window-inherit-working-directory"@],
            text: texts::WINDOW_INHERIT_WORKING_DIRECTORY@,
        },
        Entry { keys: set!["window-inherit-font-size"@], text: texts::WINDOW_INHERIT_FONT_SIZE@ },
        Entry { keys: set!["window-decoration"@], text: texts::WINDOW_DECORATION@ },
        Entry { keys: set!["window-theme"@], text: texts::WINDOW_THEME@ },
        Entry { keys: set!["window-height"@], text: texts::WINDOW_SIZE@ },
        Entry { keys: set!["window-width"@], text: texts::WINDOW_SIZE@ },
        Entry { keys: set!["window-step-resize"@], text: texts::WINDOW_STEP_RESIZE@ },
        Entry { keys: set!["gtk-titlebar"@], text: texts::GTK_TITLEBAR@ },
        Entry {
            keys: set!["clipboard-read"@, "clipboard-write"@],
            text: texts::CLIPBOARD_ACCESS@,
        },
        Entry {
            keys: set!["clipboard-trim-trailing-spaces"@],
            text: texts::CLIPBOARD_TRIM_TRAILING_SPACES@,
        },
        Entry {
            keys: set!["clipboard-paste-protection"@],
            text: texts::CLIPBOARD_PASTE_PROTECTION@,
        },
        Entry {
            keys: set!["clipboard-paste-bracketed-safe"@],
            text: texts::CLIPBOARD_PASTE_BRACKETED_SAFE@,
        },
        Entry { keys: set!["image-storage-limit"@], text: texts::IMAGE_STORAGE_LIMIT@ },
        Entry { keys: set!["copy-on-select"@], text: texts::COPY_ON_SELECT@ },
        Entry { keys: set!["click-repeat-interval"@], text: texts::CLICK_REPEAT_INTERVAL@ },
        Entry { keys: set!["config-file"@], text: texts::CONFIG_FILE@ },
        Entry { keys: set!["confirm-close-surface"@], text: texts::CONFIRM_CLOSE_SURFACE@ },
        Entry {
            keys: set!["quit-after-last-window-closed"@],
            text: texts::QUIT_AFTER_LAST_WINDOW_CLOSED@,
        },
        Entry { keys: set!["shell-integration"@], text: texts::SHELL_INTEGRATION@ },
        Entry {
            keys: set!["shell-integration-features"@],
            text: texts::SHELL_INTEGRATION_FEATURES@,
        },
        Entry { keys: set!["osc-color-report-format"@], text: texts::OSC_COLOR_REPORT_FORMAT@ },
        Entry { keys: set!["vt-kam-allowed"@], text: texts::VT_KAM_ALLOWED@ },
        Entry { keys: set!["customer-shader"@], text: texts::CUSTOMER_SHADER@ },
        Entry {
            keys: set!["customer-shader-animation"@],
            text: texts::CUSTOMER_SHADER_ANIMATION@,
        },
        Entry {
            keys: set!["macos-non-native-fullscren"@],
            text: texts::MACOS_NON_NATIVE_FULLSCREN@,
        },
        Entry { keys: set!["macos-option-as-alt"@], text: texts::MACOS_OPTION_AS_ALT@ },
        Entry { keys: set!["gtk-single-instance"@], text: texts::GTK_SINGLE_INSTANCE@ },
        Entry { keys: set!["gtk-wide-tabs"@], text: texts::GTK_WIDE_TABS@ },
        Entry { keys: set!["gtk-adwaita"@], text: texts::GTK_ADWAITA@ },
        Entry { keys: set!["desktop-notifications"@], text: texts::DESKTOP_NOTIFICATIONS@ },
    ]
}

/// Whether entry `e` of the registry lists `key` among its spellings.
pub open spec fn lists(e: int, key: Seq<char>) -> bool {
    0 <= e < registry().len() && registry()[e].keys.contains(key)
}

/// The first entry from `e` on that lists `key`.
pub open spec fn entry_from(e: int, key: Seq<char>) -> Option<int>
    decreases registry().len() - e,
{
    if e < 0 || e >= registry().len() {
        None
    } else if registry()[e].keys.contains(key) {
        Some(e)
    } else {
        entry_from(e + 1, key)
    }
}

/// The entry that lists `key`, if the registry knows the key.
pub open spec fn entry_of(key: Seq<char>) -> Option<int> {
    entry_from(0, key)
}

/// Whether the registry knows `key` under this very spelling.
pub open spec fn is_known(key: Seq<char>) -> bool {
    entry_of(key) is Some
}

/// The text that documents `key`: that of the entry which lists it, and the
/// fallback for a key that no entry lists.
pub open spec fn description(key: Seq<char>) -> Seq<char> {
    match entry_of(key) {
        Some(e) => registry()[e].text,
        None => FALLBACK@,
    }
}

/// Looks `param_name` up in the registry. Keys are matched verbatim, and an
/// unknown key, the empty one included, gets the fallback text.
pub fn get_config_param_description(param_name: &str) -> (text: String)
    ensures
        text@ == description(param_name@),
{
    proof {
        // Enough to walk the whole registry.
        reveal_with_fuel(entry_from, 70);
    }
    if str_eq(param_name, "font-family")
        || str_eq(param_name, "font-family-bold")
        || str_eq(param_name, "font-family-italic")
        || str_eq(param_name, "font-family-bold-italic")
    {
        return texts::FONT_FAMILY.to_string();
    }
    if str_eq(param_name, "font-style")
        || str_eq(param_name, "font-style-bold")
        || str_eq(param_name, "font-style-italic")
        || str_eq(param_name, "font-style-bold-italic")
    {
        return texts::FONT_STYLE.to_string();
    }
    if str_eq(param_name, "font-feature") {
        return texts::FONT_FEATURE.to_string();
    }
    if str_eq(param_name, "font-size") {
        return texts::FONT_SIZE.to_string();
    }
    if str_eq(param_name, "font-variation")
        || str_eq(param_name, "font-variation-bold")
        || str_eq(param_name, "font-variation-italic")
        || str_eq(param_name, "font-variation-bold-italic")
    {
        return texts::FONT_VARIATION.to_string();
    }
    if str_eq(param_name, "font-codepoint-map") {
        return texts::FONT_CODEPOINT_MAP.to_string();
    }
    if str_eq(param_name, "font-thicken") {
        return texts::FONT_THICKEN.to_string();
    }
    if str_eq(param_name, "adjust-cell-width")
        || str_eq(param_name, "adjust-cell-height")
        || str_eq(param_name, "adjust-font-baseline")
        || str_eq(param_name, "adjust-underline-position")
        || str_eq(param_name, "adjust-underline-thickness")
        || str_eq(param_name, "adjust-strikethrough-position")
        || str_eq(param_name, "adjust-strikethrough-thickness")
    {
        return texts::ADJUST_METRICS.to_string();
    }
    if str_eq(param_name, "theme") {
        return texts::THEME.to_string();
    }
    if str_eq(param_name, "background") {
        return texts::BACKGROUND.to_string();
    }
    if str_eq(param_name, "foreground") {
        return texts::FOREGROUND.to_string();
    }
    if str_eq(param_name, "selection-foreground") || str_eq(param_name, "selection-background") {
        return texts::SELECTION_COLORS.to_string();
    }
    if str_eq(param_name, "selection-invert-fg-bg") {
        return texts::SELECTION_INVERT_FG_BG.to_string();
    }
    if str_eq(param_name, "minimum-contrast") {
        return texts::MINIMUM_CONTRAST.to_string();
    }
    if str_eq(param_name, "palette") {
        return texts::PALETTE.to_string();
    }
    if str_eq(param_name, "cursor-color") {
        return texts::CURSOR_COLOR.to_string();
    }
    if str_eq(param_name, "cursor-opacity") {
        return texts::CURSOR_OPACITY.to_string();
    }
    if str_eq(param_name, "cursor-style") {
        return texts::CURSOR_STYLE.to_string();
    }
    if str_eq(param_name, "cursor-style-blink") {
        return texts::CURSOR_STYLE_BLINK.to_string();
    }
    if str_eq(param_name, "cursor-text") {
        return texts::CURSOR_TEXT.to_string();
    }
    if str_eq(param_name, "mouse-hide-while-typing") {
        return texts::MOUSE_HIDE_WHILE_TYPING.to_string();
    }
    if str_eq(param_name, "mouse-shift-capture") {
        return texts::MOUSE_SHIFT_CAPTURE.to_string();
    }
    if str_eq(param_name, "background-opacity") {
        return texts::BACKGROUND_OPACITY.to_string();
    }
    if str_eq(param_name, "background-blur-radius") {
        return texts::BACKGROUND_BLUR_RADIUS.to_string();
    }
    if str_eq(param_name, "unfocused-split-opacity") {
        return texts::UNFOCUSED_SPLIT_OPACITY.to_string();
    }
    if str_eq(param_name, "unfocused-split-fill") {
        return texts::UNFOCUSED_SPLIT_FILL.to_string();
    }
    if str_eq(param_name, "command") {
        return texts::COMMAND.to_string();
    }
    if str_eq(param_name, "link") {
        return texts::LINK.to_string();
    }
    if str_eq(param_name, "link-url") {
        return texts::LINK_URL.to_string();
    }
    if str_eq(param_name, "fullscreen") {
        return texts::FULLSCREEN.to_string();
    }
    if str_eq(param_name, "title") {
        return texts::TITLE.to_string();
    }
    if str_eq(param_name, "class") {
        return texts::CLASS.to_string();
    }
    if str_eq(param_name, "x11-instance-name") {
        return texts::X11_INSTANCE_NAME.to_string();
    }
    if str_eq(param_name, "working-directory") {
        return texts::WORKING_DIRECTORY.to_string();
    }
    if str_eq(param_name, "keybind") {
        return texts::KEYBIND.to_string();
    }
    if str_eq(param_name, "window-padding-x") {
        return texts::WINDOW_PADDING.to_string();
    }
    if str_eq(param_name, "window-padding-y") {
        return texts::WINDOW_PADDING.to_string();
    }
    if str_eq(param_name, "window-padding-balance") {
        return texts::WINDOW_PADDING_BALANCE.to_string();
    }
    if str_eq(param_name, "window-inherit-working-directory") {
        return texts::WINDOW_INHERIT_WORKING_DIRECTORY.to_string();
    }
    if str_eq(param_name, "window-inherit-font-size") {
        return texts::WINDOW_INHERIT_FONT_SIZE.to_string();
    }
    if str_eq(param_name, "window-decoration") {
        return texts::WINDOW_DECORATION.to_string();
    }
    if str_eq(param_name, "window-theme") {
        return texts::WINDOW_THEME.to_string();
    }
    if str_eq(param_name, "window-height") {
        return texts::WINDOW_SIZE.to_string();
    }
    if str_eq(param_name, "window-width") {
        return texts::WINDOW_SIZE.to_string();
    }
    if str_eq(param_name, "window-step-resize") {
        return texts::WINDOW_STEP_RESIZE.to_string();
    }
    if str_eq(param_name, "gtk-titlebar") {
        return texts::GTK_TITLEBAR.to_string();
    }
    if str_eq(param_name, "clipboard-read") || str_eq(param_name, "clipboard-write") {
        return texts::CLIPBOARD_ACCESS.to_string();
    }
    if str_eq(param_name, "clipboard-trim-trailing-spaces") {
        return texts::CLIPBOARD_TRIM_TRAILING_SPACES.to_string();
    }
    if str_eq(param_name, "clipboard-paste-protection") {
        return texts::CLIPBOARD_PASTE_PROTECTION.to_string();
    }
    if str_eq(param_name, "clipboard-paste-bracketed-safe") {
        return texts::CLIPBOARD_PASTE_BRACKETED_SAFE.to_string();
    }
    if str_eq(param_name, "image-storage-limit") {
        return texts::IMAGE_STORAGE_LIMIT.to_string();
    }
    if str_eq(param_name, "copy-on-select") {
        return texts::COPY_ON_SELECT.to_string();
    }
    if str_eq(param_name, "click-repeat-interval") {
        return texts::CLICK_REPEAT_INTERVAL.to_string();
    }
    if str_eq(param_name, "config-file") {
        return texts::CONFIG_FILE.to_string();
    }
    if str_eq(param_name, "confirm-close-surface") {
        return texts::CONFIRM_CLOSE_SURFACE.to_string();
    }
    if str_eq(param_name, "quit-after-last-window-closed") {
        return texts::QUIT_AFTER_LAST_WINDOW_CLOSED.to_string();
    }
    if str_eq(param_name, "shell-integration") {
        return texts::SHELL_INTEGRATION.to_string();
    }
    if str_eq(param_name, "shell-integration-features") {
        return texts::SHELL_INTEGRATION_FEATURES.to_string();
    }
    if str_eq(param_name, "osc-color-report-format") {
        return texts::OSC_COLOR_REPORT_FORMAT.to_string();
    }
    if str_eq(param_name, "vt-kam-allowed") {
        return texts::VT_KAM_ALLOWED.to_string();
    }
    if str_eq(param_name, "customer-shader") {
        return texts::CUSTOMER_SHADER.to_string();
    }
    if str_eq(param_name, "customer-shader-animation") {
        return texts::CUSTOMER_SHADER_ANIMATION.to_string();
    }
    if str_eq(param_name, "macos-non-native-fullscren") {
        return texts::MACOS_NON_NATIVE_FULLSCREN.to_string();
    }
    if str_eq(param_name, "macos-option-as-alt") {
        return texts::MACOS_OPTION_AS_ALT.to_string();
    }
    if str_eq(param_name, "gtk-single-instance") {
        return texts::GTK_SINGLE_INSTANCE.to_string();
    }
    if str_eq(param_name, "gtk-wide-tabs") {
        return texts::GTK_WIDE_TABS.to_string();
    }
    if str_eq(param_name, "gtk-adwaita") {
        return texts::GTK_ADWAITA.to_string();
    }
    if str_eq(param_name, "desktop-notifications") {
        return texts::DESKTOP_NOTIFICATIONS.to_string();
    }
    FALLBACK.to_string()
}

} // verus!
