use git_tailor::palette::{Color, Style, DIM};
use git_tailor::theme::{ConnectorRelation, ConnectorRole, FragmapTheme, SquareRelation, SquareRole, Theme};

fn fg(c: Color) -> Style {
    Style { fg: Some(c), bg: None, add_modifier: 0, sub_modifier: 0 }
}

#[test]
fn theme_square_symbols_follow_the_selected_theme() {
    assert_eq!(Theme::Plain.square_symbol(SquareRole::Current, SquareRelation::Origin), "█");
    assert_eq!(Theme::Highlight.square_symbol(SquareRole::Unrelated, SquareRelation::Conflict), "█");
    assert_eq!(Theme::Classic.square_symbol(SquareRole::Related, SquareRelation::Squashable), " ");
}

#[test]
fn theme_square_styles_follow_the_selected_theme() {
    assert_eq!(Theme::Plain.square_style(SquareRole::Current, SquareRelation::Squashable), fg(Color::DarkGray));
    assert_eq!(Theme::Plain.square_style(SquareRole::Current, SquareRelation::Conflict), fg(Color::White));
    assert_eq!(Theme::Highlight.square_style(SquareRole::Current, SquareRelation::Conflict), fg(Color::LightRed));
    assert_eq!(
        Theme::Highlight.square_style(SquareRole::Unrelated, SquareRelation::Squashable),
        Style { fg: Some(Color::Green), bg: None, add_modifier: DIM, sub_modifier: 0 }
    );
    assert_eq!(
        Theme::Classic.square_style(SquareRole::Related, SquareRelation::Origin),
        Style { fg: None, bg: Some(Color::White), add_modifier: 0, sub_modifier: 0 }
    );
}

#[test]
fn theme_connector_symbols_are_heavy_only_for_highlighted_related_columns() {
    assert_eq!(Theme::Plain.connector_symbol(ConnectorRole::Related, ConnectorRelation::Conflict), "│");
    assert_eq!(Theme::Highlight.connector_symbol(ConnectorRole::Related, ConnectorRelation::Squashable), "┃");
    assert_eq!(Theme::Highlight.connector_symbol(ConnectorRole::Unrelated, ConnectorRelation::Squashable), "│");
    assert_eq!(Theme::Classic.connector_symbol(ConnectorRole::Related, ConnectorRelation::Conflict), " ");
}
