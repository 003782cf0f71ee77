use vstd::prelude::*;

verus! {

/// The time span a chart covers.
#[derive(Clone, Copy, Debug, PartialEq, Eq)]
pub enum GraphPeriod {
    Hour,
    Day,
    Week,
}

/// The language of a chart's labels.
#[derive(Clone, Copy, Debug, PartialEq, Eq)]
pub enum Language {
    De,
    En,
}

/// The length of a chart's period in seconds.
pub open spec fn period_seconds(period: GraphPeriod) -> u64 {
    match period {
        GraphPeriod::Hour => 3600,
        GraphPeriod::Day => 86400,
        GraphPeriod::Week => 604800,
    }
}

/// Computes the length of a chart's period in seconds.
pub fn calculate_duration(period: GraphPeriod) -> (r: u64)
    ensures
        r == period_seconds(period),
{
    match period {
        GraphPeriod::Hour => 3600,
        GraphPeriod::Day => 86400,
        GraphPeriod::Week => 604800,
    }
}

/// Title, import legend and export legend of a chart.
pub open spec fn labels_spec(period: GraphPeriod, lang: Language) -> (Seq<char>, Seq<char>, Seq<char>) {
    match (period, lang) {
        (GraphPeriod::Hour, Language::De) => ("Stromverbrauch - Letzte Stunde"@, "Bezug"@, "Einspeisung"@),
        (GraphPeriod::Hour, Language::En) => ("Power Usage - Last Hour"@, "Import"@, "Export"@),
        (GraphPeriod::Day, Language::De) => ("Stromverbrauch - Letzte 24 Sunden"@, "Bezug"@, "Einspeisung"@),
        (GraphPeriod::Day, Language::En) => ("Power Usage - this day"@, "Import"@, "Export"@),
        (GraphPeriod::Week, Language::De) => ("Stromverbrauch - diese Woche"@, "Bezug"@, "Einspeisung"@),
        (GraphPeriod::Week, Language::En) => ("Power Usage - this week"@, "Import"@, "Export"@),
    }
}

/// The labels of a chart for a period and a language.
pub fn graph_labels(period: GraphPeriod, lang: Language) -> (r: (&'static str, &'static str, &'static str))
    ensures
        (r.0@, r.1@, r.2@) == labels_spec(period, lang),
{
    match (period, lang) {
        (GraphPeriod::Hour, Language::De) => ("Stromverbrauch - Letzte Stunde", "Bezug", "Einspeisung"),
        (GraphPeriod::Hour, Language::En) => ("Power Usage - Last Hour", "Import", "Export"),
        (GraphPeriod::Day, Language::De) => ("Stromverbrauch - Letzte 24 Sunden", "Bezug", "Einspeisung"),
        (GraphPeriod::Day, Language::En) => ("Power Usage - this day", "Import", "Export"),
        (GraphPeriod::Week, Language::De) => ("Stromverbrauch - diese Woche", "Bezug", "Einspeisung"),
        (GraphPeriod::Week, Language::En) => ("Power Usage - this week", "Import", "Export"),
    }
}

/// What one round of the chart loop produces.
#[derive(Clone, Copy, Debug, PartialEq, Eq)]
pub struct GraphPlan {
    /// The archive is backed up (at the turn to midnight).
    pub backup: bool,
    /// The day charts are drawn (at every turn of the hour).
    pub day: bool,
    /// The week charts are drawn (at the turn to one o'clock).
    pub week: bool,
}

/// The plan for a round of the chart loop at wall-clock hour `current` when
/// the previous round ran in hour `last`; the hour charts are drawn every round.
pub fn graph_plan(last: u32, current: u32) -> (r: GraphPlan)
    ensures
        r.day == (current != last),
        r.backup == (current != last && current == 0),
        r.week == (current != last && current == 1),
{
    let turned = current != last;
    GraphPlan { backup: turned && current == 0, day: turned, week: turned && current == 1 }
}

} // verus!
