//! The parts of a dashboard that are the same for every subject and day.

use vstd::prelude::*;
use vstd::string::*;

use crate::dashboard::{
    views_of, BestDays, BestDaysView, ChallengeMonth, ChallengeMonthView, Compatibility,
    CompatibilityTips, CompatibilityTipsView, CompatibilityView, DashboardTabs,
    DashboardTabsView, DecisionDay, DecisionDayView, DoDont, DoDontView, FullMoon, FullMoonView,
    JournalRitual, JournalRitualView, KeyDate, KeyDateView, Month, MonthView, NewMoon,
    NewMoonView, Quarter, QuarterView, Section, SectionView, TimeWindow, TimeWindowView,
    Transit, TransitView, Week, WeekArc, WeekArcView, WeekView, Year, YearView,
};

verus! {

/// The tab that every dashboard opens on.
pub open spec fn fixed_tabs() -> DashboardTabsView {
    DashboardTabsView {
        active_default: "today"@,
    }
}

/// The best hours of the day.
pub open spec fn fixed_best_hours() -> Seq<TimeWindowView> {
    seq![
        TimeWindowView {
            label: "Morning"@,
            start: "9:00 AM"@,
            end: "11:00 AM"@,
        },
        TimeWindowView {
            label: "Evening"@,
            start: "5:00 PM"@,
            end: "7:00 PM"@,
        },
    ]
}

/// What to do and what to leave.
pub open spec fn fixed_do_dont() -> DoDontView {
    DoDontView {
        do_text: "Trust your instincts and keep plans simple."@,
        dont_text: "Overshare or rush to fill quiet moments."@,
    }
}

/// The four paragraphs of the day.
pub open spec fn fixed_sections() -> Seq<SectionView> {
    seq![
        SectionView {
            title: "Focus"@,
            body: "Pick one clear priority and let the rest soften."@,
        },
        SectionView {
            title: "Relationships"@,
            body: "Lead with warmth and give others space to respond."@,
        },
        SectionView {
            title: "Action"@,
            body: "Take one grounded step that supports your long view."@,
        },
        SectionView {
            title: "Reflection"@,
            body: "Notice what feels steady and keep returning to it."@,
        },
    ]
}

/// The transits of the day.
pub open spec fn fixed_transits() -> Seq<TransitView> {
    seq![
        TransitView {
            title: "Mercury review cycle"@,
            tone: "neutral"@,
            meaning: "Double-check details before committing."@,
        },
        TransitView {
            title: "Venus harmony"@,
            tone: "soft"@,
            meaning: "Gentle conversations land with ease."@,
        },
    ]
}

/// The section on other signs.
pub open spec fn fixed_compatibility() -> CompatibilityView {
    CompatibilityView {
        best_flow_with: seq![
            "Aries"@,
            "Gemini"@,
        ],
        handle_gently_with: seq![
            "Taurus"@,
        ],
        tips: CompatibilityTipsView {
            conflict: "Pause before replying to keep things kind."@,
            affection: "Playful honesty keeps the mood light."@,
        },
    }
}

/// The section on journaling.
pub open spec fn fixed_journal_ritual() -> JournalRitualView {
    JournalRitualView {
        prompt: "What feels most important to protect today?"@,
        starters: seq![
            "I feel…"@,
            "I need…"@,
            "I'm avoiding…"@,
        ],
        mantra: "I move with grace and clear intention."@,
        ritual: "Light a candle and name one priority out loud."@,
        best_day_for_decisions: DecisionDayView {
            day_label: "Thursday"@,
            reason: "Clarity peaks in the afternoon."@,
        },
    }
}

/// The section on the week.
pub open spec fn fixed_week() -> WeekView {
    WeekView {
        arc: WeekArcView {
            start: "Settle into a calm, focused rhythm."@,
            midweek: "Tune inward before making changes."@,
            weekend: "Conversations flow and ease returns."@,
        },
        key_opportunity: "Strengthen a bond through simple honesty."@,
        key_caution: "Avoid overcommitting before you feel ready."@,
        best_day_for: BestDaysView {
            decisions: "Thursday"@,
            conversations: "Wednesday"@,
            rest: "Sunday"@,
        },
    }
}

/// The section on the month.
pub open spec fn fixed_month() -> MonthView {
    MonthView {
        theme: "Clarity through gentle structure."@,
        key_dates: seq![
            KeyDateView {
                date_label: "Jan 9–10"@,
                title: "New Moon"@,
                note: "Set intentions around focus."@,
            },
            KeyDateView {
                date_label: "Jan 17"@,
                title: "Personal reset"@,
                note: "Simplify a lingering task."@,
            },
            KeyDateView {
                date_label: "Jan 25"@,
                title: "Full Moon"@,
                note: "Release what feels heavy."@,
            },
        ],
        new_moon: NewMoonView {
            date_label: "Jan 9–10"@,
            intention: "Commit to one steady practice."@,
        },
        full_moon: FullMoonView {
            date_label: "Jan 25"@,
            release: "Let go of scattered priorities."@,
        },
        one_thing: "If you do one thing, choose the gentlest next step."@,
    }
}

/// The section on the year.
pub open spec fn fixed_year() -> YearView {
    YearView {
        headline: "A year to trust your timing and refine your craft."@,
        quarters: seq![
            QuarterView {
                label: "Q1"@,
                focus: "Grounded beginnings and clearing space."@,
            },
            QuarterView {
                label: "Q2"@,
                focus: "Momentum builds through collaboration."@,
            },
            QuarterView {
                label: "Q3"@,
                focus: "Visibility grows with steady effort."@,
            },
            QuarterView {
                label: "Q4"@,
                focus: "Integration and graceful completion."@,
            },
        ],
        power_months: seq![
            "March"@,
            "July"@,
        ],
        challenge_month: ChallengeMonthView {
            month: "October"@,
            guidance: "Slow down and streamline."@,
        },
    }
}

/// The tab that every dashboard opens on.
pub fn tabs() -> (built: DashboardTabs)
    ensures
        built@ == fixed_tabs(),
{
    let built = DashboardTabs {
        active_default: String::from_str("today"),
    };
    built
}

/// The best hours of the day.
pub fn best_hours() -> (built: Vec<TimeWindow>)
    ensures
        views_of(built@) == fixed_best_hours(),
{
    let built = vec![
        TimeWindow {
            label: String::from_str("Morning"),
            start: String::from_str("9:00 AM"),
            end: String::from_str("11:00 AM"),
        },
        TimeWindow {
            label: String::from_str("Evening"),
            start: String::from_str("5:00 PM"),
            end: String::from_str("7:00 PM"),
        },
    ];
    proof {
        assert(views_of(built@) =~= fixed_best_hours());
    }
    built
}

/// What to do and what to leave.
pub fn do_dont() -> (built: DoDont)
    ensures
        built@ == fixed_do_dont(),
{
    let built = DoDont {
        do_text: String::from_str("Trust your instincts and keep plans simple."),
        dont_text: String::from_str("Overshare or rush to fill quiet moments."),
    };
    built
}

/// The four paragraphs of the day.
pub fn sections() -> (built: Vec<Section>)
    ensures
        views_of(built@) == fixed_sections(),
{
    let built = vec![
        Section {
            title: String::from_str("Focus"),
            body: String::from_str("Pick one clear priority and let the rest soften."),
        },
        Section {
            title: String::from_str("Relationships"),
            body: String::from_str("Lead with warmth and give others space to respond."),
        },
        Section {
            title: String::from_str("Action"),
            body: String::from_str("Take one grounded step that supports your long view."),
        },
        Section {
            title: String::from_str("Reflection"),
            body: String::from_str("Notice what feels steady and keep returning to it."),
        },
    ];
    proof {
        assert(views_of(built@) =~= fixed_sections());
    }
    built
}

/// The transits of the day.
pub fn transits() -> (built: Vec<Transit>)
    ensures
        views_of(built@) == fixed_transits(),
{
    let built = vec![
        Transit {
            title: String::from_str("Mercury review cycle"),
            tone: String::from_str("neutral"),
            meaning: String::from_str("Double-check details before committing."),
        },
        Transit {
            title: String::from_str("Venus harmony"),
            tone: String::from_str("soft"),
            meaning: String::from_str("Gentle conversations land with ease."),
        },
    ];
    proof {
        assert(views_of(built@) =~= fixed_transits());
    }
    built
}

/// The section on other signs.
pub fn compatibility() -> (built: Compatibility)
    ensures
        built@ == fixed_compatibility(),
{
    let built = Compatibility {
        best_flow_with: vec![
            String::from_str("Aries"),
            String::from_str("Gemini"),
        ],
        handle_gently_with: vec![
            String::from_str("Taurus"),
        ],
        tips: CompatibilityTips {
            conflict: String::from_str("Pause before replying to keep things kind."),
            affection: String::from_str("Playful honesty keeps the mood light."),
        },
    };
    proof {
        assert(built@.best_flow_with =~= fixed_compatibility().best_flow_with);
        assert(built@.handle_gently_with =~= fixed_compatibility().handle_gently_with);
    }
    built
}

/// The section on journaling.
pub fn journal_ritual() -> (built: JournalRitual)
    ensures
        built@ == fixed_journal_ritual(),
{
    let built = JournalRitual {
        prompt: String::from_str("What feels most important to protect today?"),
        starters: vec![
            String::from_str("I feel…"),
            String::from_str("I need…"),
            String::from_str("I'm avoiding…"),
        ],
        mantra: String::from_str("I move with grace and clear intention."),
        ritual: String::from_str("Light a candle and name one priority out loud."),
        best_day_for_decisions: DecisionDay {
            day_label: String::from_str("Thursday"),
            reason: String::from_str("Clarity peaks in the afternoon."),
        },
    };
    proof {
        assert(built@.starters =~= fixed_journal_ritual().starters);
    }
    built
}

/// The section on the week.
pub fn week() -> (built: Week)
    ensures
        built@ == fixed_week(),
{
    let built = Week {
        arc: WeekArc {
            start: String::from_str("Settle into a calm, focused rhythm."),
            midweek: String::from_str("Tune inward before making changes."),
            weekend: String::from_str("Conversations flow and ease returns."),
        },
        key_opportunity: String::from_str("Strengthen a bond through simple honesty."),
        key_caution: String::from_str("Avoid overcommitting before you feel ready."),
        best_day_for: BestDays {
            decisions: String::from_str("Thursday"),
            conversations: String::from_str("Wednesday"),
            rest: String::from_str("Sunday"),
        },
    };
    built
}

/// The section on the month.
pub fn month() -> (built: Month)
    ensures
        built@ == fixed_month(),
{
    let built = Month {
        theme: String::from_str("Clarity through gentle structure."),
        key_dates: vec![
            KeyDate {
                date_label: String::from_str("Jan 9–10"),
                title: String::from_str("New Moon"),
                note: String::from_str("Set intentions around focus."),
            },
            KeyDate {
                date_label: String::from_str("Jan 17"),
                title: String::from_str("Personal reset"),
                note: String::from_str("Simplify a lingering task."),
            },
            KeyDate {
                date_label: String::from_str("Jan 25"),
                title: String::from_str("Full Moon"),
                note: String::from_str("Release what feels heavy."),
            },
        ],
        new_moon: NewMoon {
            date_label: String::from_str("Jan 9–10"),
            intention: String::from_str("Commit to one steady practice."),
        },
        full_moon: FullMoon {
            date_label: String::from_str("Jan 25"),
            release: String::from_str("Let go of scattered priorities."),
        },
        one_thing: String::from_str("If you do one thing, choose the gentlest next step."),
    };
    proof {
        assert(built@.key_dates =~= fixed_month().key_dates);
    }
    built
}

/// The section on the year.
pub fn year() -> (built: Year)
    ensures
        built@ == fixed_year(),
{
    let built = Year {
        headline: String::from_str("A year to trust your timing and refine your craft."),
        quarters: vec![
            Quarter {
                label: String::from_str("Q1"),
                focus: String::from_str("Grounded beginnings and clearing space."),
            },
            Quarter {
                label: String::from_str("Q2"),
                focus: String::from_str("Momentum builds through collaboration."),
            },
            Quarter {
                label: String::from_str("Q3"),
                focus: String::from_str("Visibility grows with steady effort."),
            },
            Quarter {
                label: String::from_str("Q4"),
                focus: String::from_str("Integration and graceful completion."),
            },
        ],
        power_months: vec![
            String::from_str("March"),
            String::from_str("July"),
        ],
        challenge_month: ChallengeMonth {
            month: String::from_str("October"),
            guidance: String::from_str("Slow down and streamline."),
        },
    };
    proof {
        assert(built@.quarters =~= fixed_year().quarters);
        assert(built@.power_months =~= fixed_year().power_months);
    }
    built
}

} // verus!
