//! Hunk-group matrix rendering themes.

use vstd::prelude::*;
use crate::palette::{Color, Style, BOLD, DIM};

verus! {

/// Role of a square (commit-row × cluster-column intersection) relative to
/// the focus commit.
#[derive(Clone, Copy, Debug, PartialEq, Eq, Structural)]
pub enum SquareRole {
    /// The focus commit's own square (always in a focus-cluster column).
    Current,
    /// Another commit's square in a focus-cluster column.
    Related,
    /// Any square in a non-focus-cluster column.
    Unrelated,
}

/// Role of a connector column relative to the focus commit.
#[derive(Clone, Copy, Debug, PartialEq, Eq, Structural)]
pub enum ConnectorRole {
    /// The column belongs to a cluster that the focus commit touches.
    Related,
    /// The column belongs to a cluster the focus commit does not touch.
    Unrelated,
}

/// Relationship of a square to earlier commits in the same cluster column.
#[derive(Clone, Copy, Debug, PartialEq, Eq, Structural)]
pub enum SquareRelation {
    /// Can be squashed with an earlier commit in this cluster.
    Squashable,
    /// Cannot be squashed — intervening commits exist in this cluster.
    Conflict,
    /// Topmost square in the column: no earlier commit touches this cluster.
    Origin,
}

/// Relationship of a connector between two squares in a cluster column.
#[derive(Clone, Copy, Debug, PartialEq, Eq, Structural)]
pub enum ConnectorRelation {
    /// The lower square is squashable with the earlier one.
    Squashable,
    /// The lower square conflicts with the earlier one.
    Conflict,
}

/// Role of a commit row's SHA + title text relative to the focus commit.
#[derive(Clone, Copy, Debug, PartialEq, Eq, Structural)]
pub enum CommitRowRole {
    /// Directly squashable into, or from, the focus commit.
    SquashPartner,
    /// Shares a hunk-group cluster with the focus commit (but not squashable).
    Conflict,
    /// Fully squashable into some other commit (focus-independent).
    Squashable,
    /// No relationship to the focus commit.
    Unrelated,
}

/// A style with only a foreground color.
pub open spec fn fg_style(c: Color) -> Style {
    Style { fg: Some(c), bg: None, add_modifier: 0, sub_modifier: 0 }
}

/// A style with only a background color.
pub open spec fn bg_style(c: Color) -> Style {
    Style { fg: None, bg: Some(c), add_modifier: 0, sub_modifier: 0 }
}

/// `s` with modifier bits `m` added.
pub open spec fn with_modifier(s: Style, m: u16) -> Style {
    Style { add_modifier: s.add_modifier | m, sub_modifier: s.sub_modifier & !m, ..s }
}

/// The empty style.
pub open spec fn no_style() -> Style {
    Style { fg: None, bg: None, add_modifier: 0, sub_modifier: 0 }
}

/// Controls how fragmap squares, connectors, and commit list rows are rendered.
pub trait FragmapTheme {
    fn square_symbol(&self, role: SquareRole, rel: SquareRelation) -> &'static str;
    fn square_style(&self, role: SquareRole, rel: SquareRelation) -> Style;
    fn connector_symbol(&self, role: ConnectorRole, rel: ConnectorRelation) -> &'static str;
    fn connector_style(&self, role: ConnectorRole, rel: ConnectorRelation) -> Style;
    fn commit_row_style(&self, role: CommitRowRole) -> Style;
}

/// Uniform heavy-glyph rendering — no focus distinction: all squares use
/// `█`, all connectors use `│`, colored only by relation type.
pub struct PlainTheme;

/// Focus highlighting: dims unrelated columns, heavy `┃` connectors for
/// related columns, green for squashable relations, red/white for conflicts.
pub struct HighlightTheme;

/// Traditional fragmap appearance: touched squares are a space on a white
/// background; connectors have yellow (squashable) or red (conflict)
/// backgrounds.
pub struct ClassicTheme;

/// Row style shared by the plain and classic themes.
pub open spec fn plain_row_style(role: CommitRowRole) -> Style {
    match role {
        CommitRowRole::SquashPartner => fg_style(Color::Yellow),
        CommitRowRole::Conflict => fg_style(Color::Red),
        CommitRowRole::Squashable => fg_style(Color::DarkGray),
        CommitRowRole::Unrelated => no_style(),
    }
}

fn plain_row(role: CommitRowRole) -> (s: Style)
    ensures
        s == plain_row_style(role),
{
    match role {
        CommitRowRole::SquashPartner => Style::new().fg(Color::Yellow),
        CommitRowRole::Conflict => Style::new().fg(Color::Red),
        CommitRowRole::Squashable => Style::new().fg(Color::DarkGray),
        CommitRowRole::Unrelated => Style::new(),
    }
}

impl FragmapTheme for PlainTheme {
    fn square_symbol(&self, _role: SquareRole, _rel: SquareRelation) -> (s: &'static str)
        ensures
            s@ == "█"@,
    {
        "█"
    }

    fn square_style(&self, _role: SquareRole, rel: SquareRelation) -> (s: Style)
        ensures
            s == (match rel {
                SquareRelation::Squashable => fg_style(Color::DarkGray),
                _ => fg_style(Color::White),
            }),
    {
        match rel {
            SquareRelation::Squashable => Style::new().fg(Color::DarkGray),
            SquareRelation::Conflict => Style::new().fg(Color::White),
            SquareRelation::Origin => Style::new().fg(Color::White),
        }
    }

    fn connector_symbol(&self, _role: ConnectorRole, _rel: ConnectorRelation) -> (s: &'static str)
        ensures
            s@ == "│"@,
    {
        "│"
    }

    fn connector_style(&self, _role: ConnectorRole, rel: ConnectorRelation) -> (s: Style)
        ensures
            s == (match rel {
                ConnectorRelation::Squashable => fg_style(Color::Yellow),
                ConnectorRelation::Conflict => fg_style(Color::Red),
            }),
    {
        match rel {
            ConnectorRelation::Squashable => Style::new().fg(Color::Yellow),
            ConnectorRelation::Conflict => Style::new().fg(Color::Red),
        }
    }

    fn commit_row_style(&self, role: CommitRowRole) -> (s: Style)
        ensures
            s == plain_row_style(role),
    {
        plain_row(role)
    }
}

/// Square style of the highlight theme.
pub open spec fn highlight_square_style(role: SquareRole, rel: SquareRelation) -> Style {
    let base = match rel {
        SquareRelation::Squashable => fg_style(Color::Green),
        SquareRelation::Conflict => fg_style(if role == SquareRole::Current { Color::LightRed } else { Color::White }),
        SquareRelation::Origin => fg_style(Color::White),
    };
    match role {
        SquareRole::Unrelated => with_modifier(base, DIM),
        _ => base,
    }
}

/// Connector style of the highlight theme.
pub open spec fn highlight_connector_style(role: ConnectorRole, rel: ConnectorRelation) -> Style {
    let base = match rel {
        ConnectorRelation::Squashable => fg_style(Color::Green),
        ConnectorRelation::Conflict => fg_style(Color::Red),
    };
    match role {
        ConnectorRole::Related => with_modifier(base, BOLD),
        ConnectorRole::Unrelated => with_modifier(base, DIM),
    }
}

impl FragmapTheme for HighlightTheme {
    fn square_symbol(&self, _role: SquareRole, _rel: SquareRelation) -> (s: &'static str)
        ensures
            s@ == "█"@,
    {
        "█"
    }

    fn square_style(&self, role: SquareRole, rel: SquareRelation) -> (s: Style)
        ensures
            s == highlight_square_style(role, rel),
    {
        let style = match rel {
            SquareRelation::Squashable => Style::new().fg(Color::Green),
            SquareRelation::Conflict => Style::new().fg(
                if matches!(role, SquareRole::Current) { Color::LightRed } else { Color::White },
            ),
            SquareRelation::Origin => Style::new().fg(Color::White),
        };
        match role {
            SquareRole::Current => style,
            SquareRole::Related => style,
            SquareRole::Unrelated => style.add_modifier(DIM),
        }
    }

    fn connector_symbol(&self, role: ConnectorRole, _rel: ConnectorRelation) -> (s: &'static str)
        ensures
            role == ConnectorRole::Related ==> s@ == "┃"@,
            role == ConnectorRole::Unrelated ==> s@ == "│"@,
    {
        match role {
            ConnectorRole::Related => "┃",
            ConnectorRole::Unrelated => "│",
        }
    }

    fn connector_style(&self, role: ConnectorRole, rel: ConnectorRelation) -> (s: Style)
        ensures
            s == highlight_connector_style(role, rel),
    {
        let style = match rel {
            ConnectorRelation::Squashable => Style::new().fg(Color::Green),
            ConnectorRelation::Conflict => Style::new().fg(Color::Red),
        };
        match role {
            ConnectorRole::Related => style.add_modifier(BOLD),
            ConnectorRole::Unrelated => style.add_modifier(DIM),
        }
    }

    fn commit_row_style(&self, role: CommitRowRole) -> (s: Style)
        ensures
            s == (match role {
                CommitRowRole::SquashPartner => fg_style(Color::Green),
                CommitRowRole::Conflict => fg_style(Color::Red),
                CommitRowRole::Squashable => with_modifier(fg_style(Color::Green), DIM),
                CommitRowRole::Unrelated => no_style(),
            }),
    {
        match role {
            CommitRowRole::SquashPartner => Style::new().fg(Color::Green),
            CommitRowRole::Conflict => Style::new().fg(Color::Red),
            CommitRowRole::Squashable => Style::new().fg(Color::Green).add_modifier(DIM),
            CommitRowRole::Unrelated => Style::new(),
        }
    }
}

impl FragmapTheme for ClassicTheme {
    fn square_symbol(&self, _role: SquareRole, _rel: SquareRelation) -> (s: &'static str)
        ensures
            s@ == " "@,
    {
        " "
    }

    fn square_style(&self, _role: SquareRole, _rel: SquareRelation) -> (s: Style)
        ensures
            s == bg_style(Color::White),
    {
        Style::new().bg(Color::White)
    }

    fn connector_symbol(&self, _role: ConnectorRole, _rel: ConnectorRelation) -> (s: &'static str)
        ensures
            s@ == " "@,
    {
        " "
    }

    fn connector_style(&self, _role: ConnectorRole, rel: ConnectorRelation) -> (s: Style)
        ensures
            s == (match rel {
                ConnectorRelation::Squashable => bg_style(Color::Yellow),
                ConnectorRelation::Conflict => bg_style(Color::Red),
            }),
    {
        match rel {
            ConnectorRelation::Squashable => Style::new().bg(Color::Yellow),
            ConnectorRelation::Conflict => Style::new().bg(Color::Red),
        }
    }

    fn commit_row_style(&self, role: CommitRowRole) -> (s: Style)
        ensures
            s == plain_row_style(role),
    {
        plain_row(role)
    }
}

/// Square style of the plain theme: gray where squashable, white otherwise.
pub open spec fn plain_square_style(rel: SquareRelation) -> Style {
    match rel {
        SquareRelation::Squashable => fg_style(Color::DarkGray),
        _ => fg_style(Color::White),
    }
}

/// The glyph drawn for a square under `theme`.
pub open spec fn theme_square_symbol(theme: Theme) -> Seq<char> {
    match theme {
        Theme::Plain => "█"@,
        Theme::Highlight => "█"@,
        Theme::Classic => " "@,
    }
}

/// The style of a square under `theme`.
pub open spec fn theme_square_style(theme: Theme, role: SquareRole, rel: SquareRelation) -> Style {
    match theme {
        Theme::Plain => plain_square_style(rel),
        Theme::Highlight => highlight_square_style(role, rel),
        Theme::Classic => bg_style(Color::White),
    }
}

/// The glyph drawn for a connector under `theme`: heavy only for a
/// related column of the highlight theme.
pub open spec fn theme_connector_symbol(theme: Theme, role: ConnectorRole) -> Seq<char> {
    match theme {
        Theme::Plain => "│"@,
        Theme::Highlight => if role == ConnectorRole::Related { "┃"@ } else { "│"@ },
        Theme::Classic => " "@,
    }
}

/// Selects which `FragmapTheme` implementation is active.
#[derive(Clone, Copy, Debug, PartialEq, Eq, Structural)]
pub enum Theme {
    /// No focus highlighting (default).
    Plain,
    /// Highlight clusters related to the selected commit.
    Highlight,
    /// Background-color style, matching the `--static` output.
    Classic,
}

impl FragmapTheme for Theme {
    fn square_symbol(&self, role: SquareRole, rel: SquareRelation) -> (s: &'static str)
        ensures
            s@ == theme_square_symbol(*self),
    {
        match self {
            Theme::Plain => PlainTheme.square_symbol(role, rel),
            Theme::Highlight => HighlightTheme.square_symbol(role, rel),
            Theme::Classic => ClassicTheme.square_symbol(role, rel),
        }
    }

    fn square_style(&self, role: SquareRole, rel: SquareRelation) -> (s: Style)
        ensures
            s == theme_square_style(*self, role, rel),
    {
        match self {
            Theme::Plain => PlainTheme.square_style(role, rel),
            Theme::Highlight => HighlightTheme.square_style(role, rel),
            Theme::Classic => ClassicTheme.square_style(role, rel),
        }
    }

    fn connector_symbol(&self, role: ConnectorRole, rel: ConnectorRelation) -> (s: &'static str)
        ensures
            s@ == theme_connector_symbol(*self, role),
    {
        match self {
            Theme::Plain => PlainTheme.connector_symbol(role, rel),
            Theme::Highlight => HighlightTheme.connector_symbol(role, rel),
            Theme::Classic => ClassicTheme.connector_symbol(role, rel),
        }
    }

    fn connector_style(&self, role: ConnectorRole, rel: ConnectorRelation) -> (s: Style)
        ensures
            *self == Theme::Highlight ==> s == highlight_connector_style(role, rel),
    {
        match self {
            Theme::Plain => PlainTheme.connector_style(role, rel),
            Theme::Highlight => HighlightTheme.connector_style(role, rel),
            Theme::Classic => ClassicTheme.connector_style(role, rel),
        }
    }

    fn commit_row_style(&self, role: CommitRowRole) -> (s: Style)
        ensures
            *self != Theme::Highlight ==> s == plain_row_style(role),
    {
        match self {
            Theme::Plain => PlainTheme.commit_row_style(role),
            Theme::Highlight => HighlightTheme.commit_row_style(role),
            Theme::Classic => ClassicTheme.commit_row_style(role),
        }
    }
}

} // verus!
