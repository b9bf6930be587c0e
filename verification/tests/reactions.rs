use clitrix::data::models::{Message, User};

fn message() -> Message {
    Message::new_text("$e".to_string(), User::new("@a:m.org".to_string()), "hi".to_string())
}

#[test]
fn test_reactions_add_and_format() {
    let mut m = message();
    assert_eq!(m.format_reactions(), "");
    m.add_reaction("👍".to_string(), "@a:m.org".to_string());
    m.add_reaction("🎉".to_string(), "@b:m.org".to_string());
    m.add_reaction("👍".to_string(), "@b:m.org".to_string());
    assert_eq!(m.format_reactions(), " [👍 2 🎉 1]");
}

#[test]
fn test_reactions_remove_drops_empty_entry() {
    let mut m = message();
    m.add_reaction("👍".to_string(), "@a:m.org".to_string());
    m.add_reaction("🎉".to_string(), "@b:m.org".to_string());
    m.remove_reaction("👍", "@a:m.org");
    assert_eq!(m.format_reactions(), " [🎉 1]");
    m.remove_reaction("🎉", "@nobody:m.org");
    assert_eq!(m.format_reactions(), " [🎉 1]");
    m.remove_reaction("❤", "@b:m.org");
    assert_eq!(m.format_reactions(), " [🎉 1]");
}

#[test]
fn test_reaction_added_then_withdrawn() {
    let mut m = message();
    m.add_reaction("👍".to_string(), "@a:m.org".to_string());
    let before = m.format_reactions();
    m.add_reaction("👍".to_string(), "@b:m.org".to_string());
    m.remove_reaction("👍", "@b:m.org");
    assert_eq!(m.format_reactions(), before);
    m.add_reaction("🎉".to_string(), "@b:m.org".to_string());
    m.remove_reaction("🎉", "@b:m.org");
    assert_eq!(m.format_reactions(), before);
    assert_eq!(m.reactions.len(), 1);
    assert_eq!(m.reactions[0].users, vec!["@a:m.org".to_string()]);
}
