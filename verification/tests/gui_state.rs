use sbtui::gui_lang::Locale;
use sbtui::gui_state::{page_from_name, switch_language, InputField, Page, INPUT_FIELDS};

#[test]
fn every_input_field_indexes_the_array_at_its_own_slot() {
    for (index, field) in INPUT_FIELDS.iter().enumerate() {
        assert_eq!(
            *field as usize, index,
            "{field:?} sits at slot {index}, which is another field's text"
        );
        assert_eq!(field.slot(), index);
    }
    assert_eq!(
        InputField::CoreVersion as usize + 1,
        INPUT_FIELDS.len(),
        "`CoreVersion` is the last variant, so a new one needs a new array slot too"
    );
}

#[test]
fn switching_the_language_keeps_the_page() {
    for page in Page::all() {
        for locale in [Locale::Zh, Locale::En] {
            let (kept, next) = switch_language(locale, page);
            assert_eq!(kept, page);
            assert_eq!(next, locale.toggle());
            let (kept, back) = switch_language(next, kept);
            assert_eq!(kept, page);
            assert_eq!(back, locale);
        }
    }
}

#[test]
fn an_unknown_page_name_opens_nothing() {
    assert_eq!(page_from_name("no-such-page"), None);
}
