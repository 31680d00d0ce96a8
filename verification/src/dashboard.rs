//! The dashboard: a document of fixed shape with a section for the day,
//! the sky, other signs, journaling, the week, the month and the year.
//! Each record has a view, the same record with every string as a sequence
//! of characters.

use vstd::prelude::*;

use crate::text::strings_of;

verus! {

/// The views of a list of records.
pub open spec fn views_of<T: View>(values: Seq<T>) -> Seq<T::V> {
    Seq::new(values.len(), |i: int| values[i]@)
}

/// Who and which day a dashboard is for.
#[derive(Debug, PartialEq, Eq)]
pub struct DashboardMeta {
    pub date_iso: String,
    pub locale_date_label: String,
    pub generated_at_iso: String,
    pub sign: String,
    pub name: String,
}

/// The view of [`DashboardMeta`].
pub struct DashboardMetaView {
    pub date_iso: Seq<char>,
    pub locale_date_label: Seq<char>,
    pub generated_at_iso: Seq<char>,
    pub sign: Seq<char>,
    pub name: Seq<char>,
}

impl View for DashboardMeta {
    type V = DashboardMetaView;

    open spec fn view(&self) -> DashboardMetaView {
        DashboardMetaView {
            date_iso: self.date_iso@,
            locale_date_label: self.locale_date_label@,
            generated_at_iso: self.generated_at_iso@,
            sign: self.sign@,
            name: self.name@,
        }
    }
}

/// Which tab the dashboard opens on.
#[derive(Debug, PartialEq, Eq)]
pub struct DashboardTabs {
    pub active_default: String,
}

/// The view of [`DashboardTabs`].
pub struct DashboardTabsView {
    pub active_default: Seq<char>,
}

impl View for DashboardTabs {
    type V = DashboardTabsView;

    open spec fn view(&self) -> DashboardTabsView {
        DashboardTabsView {
            active_default: self.active_default@,
        }
    }
}

/// A stretch of the day.
#[derive(Debug, PartialEq, Eq)]
pub struct TimeWindow {
    pub label: String,
    pub start: String,
    pub end: String,
}

/// The view of [`TimeWindow`].
pub struct TimeWindowView {
    pub label: Seq<char>,
    pub start: Seq<char>,
    pub end: Seq<char>,
}

impl View for TimeWindow {
    type V = TimeWindowView;

    open spec fn view(&self) -> TimeWindowView {
        TimeWindowView {
            label: self.label@,
            start: self.start@,
            end: self.end@,
        }
    }
}

/// Ratings of the day by area of life.
#[derive(Debug, PartialEq, Eq)]
pub struct Ratings {
    pub love: u8,
    pub work: u8,
    pub money: u8,
    pub health: u8,
}

/// The view of [`Ratings`].
pub struct RatingsView {
    pub love: int,
    pub work: int,
    pub money: int,
    pub health: int,
}

impl View for Ratings {
    type V = RatingsView;

    open spec fn view(&self) -> RatingsView {
        RatingsView {
            love: self.love as int,
            work: self.work as int,
            money: self.money as int,
            health: self.health as int,
        }
    }
}

/// The lucky colour, number and symbol of the day.
#[derive(Debug, PartialEq, Eq)]
pub struct Lucky {
    pub color: String,
    pub number: u8,
    pub symbol: String,
}

/// The view of [`Lucky`].
pub struct LuckyView {
    pub color: Seq<char>,
    pub number: int,
    pub symbol: Seq<char>,
}

impl View for Lucky {
    type V = LuckyView;

    open spec fn view(&self) -> LuckyView {
        LuckyView {
            color: self.color@,
            number: self.number as int,
            symbol: self.symbol@,
        }
    }
}

/// One thing to do and one to leave.
#[derive(Debug, PartialEq, Eq)]
pub struct DoDont {
    pub do_text: String,
    pub dont_text: String,
}

/// The view of [`DoDont`].
pub struct DoDontView {
    pub do_text: Seq<char>,
    pub dont_text: Seq<char>,
}

impl View for DoDont {
    type V = DoDontView;

    open spec fn view(&self) -> DoDontView {
        DoDontView {
            do_text: self.do_text@,
            dont_text: self.dont_text@,
        }
    }
}

/// A titled paragraph.
#[derive(Debug, PartialEq, Eq)]
pub struct Section {
    pub title: String,
    pub body: String,
}

/// The view of [`Section`].
pub struct SectionView {
    pub title: Seq<char>,
    pub body: Seq<char>,
}

impl View for Section {
    type V = SectionView;

    open spec fn view(&self) -> SectionView {
        SectionView {
            title: self.title@,
            body: self.body@,
        }
    }
}

/// The section on the day itself.
#[derive(Debug, PartialEq, Eq)]
pub struct Today {
    pub headline: String,
    pub subhead: String,
    pub theme: String,
    pub energy_score: u8,
    pub best_hours: Vec<TimeWindow>,
    pub ratings: Ratings,
    pub lucky: Lucky,
    pub do_dont: DoDont,
    pub sections: Vec<Section>,
}

/// The view of [`Today`].
pub struct TodayView {
    pub headline: Seq<char>,
    pub subhead: Seq<char>,
    pub theme: Seq<char>,
    pub energy_score: int,
    pub best_hours: Seq<TimeWindowView>,
    pub ratings: RatingsView,
    pub lucky: LuckyView,
    pub do_dont: DoDontView,
    pub sections: Seq<SectionView>,
}

impl View for Today {
    type V = TodayView;

    open spec fn view(&self) -> TodayView {
        TodayView {
            headline: self.headline@,
            subhead: self.subhead@,
            theme: self.theme@,
            energy_score: self.energy_score as int,
            best_hours: views_of(self.best_hours@),
            ratings: self.ratings@,
            lucky: self.lucky@,
            do_dont: self.do_dont@,
            sections: views_of(self.sections@),
        }
    }
}

/// Phase and sign of the moon.
#[derive(Debug, PartialEq, Eq)]
pub struct Moon {
    pub phase: String,
    pub sign: String,
}

/// The view of [`Moon`].
pub struct MoonView {
    pub phase: Seq<char>,
    pub sign: Seq<char>,
}

impl View for Moon {
    type V = MoonView;

    open spec fn view(&self) -> MoonView {
        MoonView {
            phase: self.phase@,
            sign: self.sign@,
        }
    }
}

/// A planetary transit and what it means.
#[derive(Debug, PartialEq, Eq)]
pub struct Transit {
    pub title: String,
    pub tone: String,
    pub meaning: String,
}

/// The view of [`Transit`].
pub struct TransitView {
    pub title: Seq<char>,
    pub tone: Seq<char>,
    pub meaning: Seq<char>,
}

impl View for Transit {
    type V = TransitView;

    open spec fn view(&self) -> TransitView {
        TransitView {
            title: self.title@,
            tone: self.tone@,
            meaning: self.meaning@,
        }
    }
}

/// The section on the sky.
#[derive(Debug, PartialEq, Eq)]
pub struct CosmicWeather {
    pub moon: Moon,
    pub transits: Vec<Transit>,
    pub affects_today: String,
}

/// The view of [`CosmicWeather`].
pub struct CosmicWeatherView {
    pub moon: MoonView,
    pub transits: Seq<TransitView>,
    pub affects_today: Seq<char>,
}

impl View for CosmicWeather {
    type V = CosmicWeatherView;

    open spec fn view(&self) -> CosmicWeatherView {
        CosmicWeatherView {
            moon: self.moon@,
            transits: views_of(self.transits@),
            affects_today: self.affects_today@,
        }
    }
}

/// Advice for conflict and for affection.
#[derive(Debug, PartialEq, Eq)]
pub struct CompatibilityTips {
    pub conflict: String,
    pub affection: String,
}

/// The view of [`CompatibilityTips`].
pub struct CompatibilityTipsView {
    pub conflict: Seq<char>,
    pub affection: Seq<char>,
}

impl View for CompatibilityTips {
    type V = CompatibilityTipsView;

    open spec fn view(&self) -> CompatibilityTipsView {
        CompatibilityTipsView {
            conflict: self.conflict@,
            affection: self.affection@,
        }
    }
}

/// The section on other signs.
#[derive(Debug, PartialEq, Eq)]
pub struct Compatibility {
    pub best_flow_with: Vec<String>,
    pub handle_gently_with: Vec<String>,
    pub tips: CompatibilityTips,
}

/// The view of [`Compatibility`].
pub struct CompatibilityView {
    pub best_flow_with: Seq<Seq<char>>,
    pub handle_gently_with: Seq<Seq<char>>,
    pub tips: CompatibilityTipsView,
}

impl View for Compatibility {
    type V = CompatibilityView;

    open spec fn view(&self) -> CompatibilityView {
        CompatibilityView {
            best_flow_with: strings_of(self.best_flow_with@),
            handle_gently_with: strings_of(self.handle_gently_with@),
            tips: self.tips@,
        }
    }
}

/// The best day for decisions, with the reason.
#[derive(Debug, PartialEq, Eq)]
pub struct DecisionDay {
    pub day_label: String,
    pub reason: String,
}

/// The view of [`DecisionDay`].
pub struct DecisionDayView {
    pub day_label: Seq<char>,
    pub reason: Seq<char>,
}

impl View for DecisionDay {
    type V = DecisionDayView;

    open spec fn view(&self) -> DecisionDayView {
        DecisionDayView {
            day_label: self.day_label@,
            reason: self.reason@,
        }
    }
}

/// The section on journaling.
#[derive(Debug, PartialEq, Eq)]
pub struct JournalRitual {
    pub prompt: String,
    pub starters: Vec<String>,
    pub mantra: String,
    pub ritual: String,
    pub best_day_for_decisions: DecisionDay,
}

/// The view of [`JournalRitual`].
pub struct JournalRitualView {
    pub prompt: Seq<char>,
    pub starters: Seq<Seq<char>>,
    pub mantra: Seq<char>,
    pub ritual: Seq<char>,
    pub best_day_for_decisions: DecisionDayView,
}

impl View for JournalRitual {
    type V = JournalRitualView;

    open spec fn view(&self) -> JournalRitualView {
        JournalRitualView {
            prompt: self.prompt@,
            starters: strings_of(self.starters@),
            mantra: self.mantra@,
            ritual: self.ritual@,
            best_day_for_decisions: self.best_day_for_decisions@,
        }
    }
}

/// How the week runs.
#[derive(Debug, PartialEq, Eq)]
pub struct WeekArc {
    pub start: String,
    pub midweek: String,
    pub weekend: String,
}

/// The view of [`WeekArc`].
pub struct WeekArcView {
    pub start: Seq<char>,
    pub midweek: Seq<char>,
    pub weekend: Seq<char>,
}

impl View for WeekArc {
    type V = WeekArcView;

    open spec fn view(&self) -> WeekArcView {
        WeekArcView {
            start: self.start@,
            midweek: self.midweek@,
            weekend: self.weekend@,
        }
    }
}

/// The best day of the week for each of three things.
#[derive(Debug, PartialEq, Eq)]
pub struct BestDays {
    pub decisions: String,
    pub conversations: String,
    pub rest: String,
}

/// The view of [`BestDays`].
pub struct BestDaysView {
    pub decisions: Seq<char>,
    pub conversations: Seq<char>,
    pub rest: Seq<char>,
}

impl View for BestDays {
    type V = BestDaysView;

    open spec fn view(&self) -> BestDaysView {
        BestDaysView {
            decisions: self.decisions@,
            conversations: self.conversations@,
            rest: self.rest@,
        }
    }
}

/// The section on the week.
#[derive(Debug, PartialEq, Eq)]
pub struct Week {
    pub arc: WeekArc,
    pub key_opportunity: String,
    pub key_caution: String,
    pub best_day_for: BestDays,
}

/// The view of [`Week`].
pub struct WeekView {
    pub arc: WeekArcView,
    pub key_opportunity: Seq<char>,
    pub key_caution: Seq<char>,
    pub best_day_for: BestDaysView,
}

impl View for Week {
    type V = WeekView;

    open spec fn view(&self) -> WeekView {
        WeekView {
            arc: self.arc@,
            key_opportunity: self.key_opportunity@,
            key_caution: self.key_caution@,
            best_day_for: self.best_day_for@,
        }
    }
}

/// A date of the month to note.
#[derive(Debug, PartialEq, Eq)]
pub struct KeyDate {
    pub date_label: String,
    pub title: String,
    pub note: String,
}

/// The view of [`KeyDate`].
pub struct KeyDateView {
    pub date_label: Seq<char>,
    pub title: Seq<char>,
    pub note: Seq<char>,
}

impl View for KeyDate {
    type V = KeyDateView;

    open spec fn view(&self) -> KeyDateView {
        KeyDateView {
            date_label: self.date_label@,
            title: self.title@,
            note: self.note@,
        }
    }
}

/// The new moon of the month.
#[derive(Debug, PartialEq, Eq)]
pub struct NewMoon {
    pub date_label: String,
    pub intention: String,
}

/// The view of [`NewMoon`].
pub struct NewMoonView {
    pub date_label: Seq<char>,
    pub intention: Seq<char>,
}

impl View for NewMoon {
    type V = NewMoonView;

    open spec fn view(&self) -> NewMoonView {
        NewMoonView {
            date_label: self.date_label@,
            intention: self.intention@,
        }
    }
}

/// The full moon of the month.
#[derive(Debug, PartialEq, Eq)]
pub struct FullMoon {
    pub date_label: String,
    pub release: String,
}

/// The view of [`FullMoon`].
pub struct FullMoonView {
    pub date_label: Seq<char>,
    pub release: Seq<char>,
}

impl View for FullMoon {
    type V = FullMoonView;

    open spec fn view(&self) -> FullMoonView {
        FullMoonView {
            date_label: self.date_label@,
            release: self.release@,
        }
    }
}

/// The section on the month.
#[derive(Debug, PartialEq, Eq)]
pub struct Month {
    pub theme: String,
    pub key_dates: Vec<KeyDate>,
    pub new_moon: NewMoon,
    pub full_moon: FullMoon,
    pub one_thing: String,
}

/// The view of [`Month`].
pub struct MonthView {
    pub theme: Seq<char>,
    pub key_dates: Seq<KeyDateView>,
    pub new_moon: NewMoonView,
    pub full_moon: FullMoonView,
    pub one_thing: Seq<char>,
}

impl View for Month {
    type V = MonthView;

    open spec fn view(&self) -> MonthView {
        MonthView {
            theme: self.theme@,
            key_dates: views_of(self.key_dates@),
            new_moon: self.new_moon@,
            full_moon: self.full_moon@,
            one_thing: self.one_thing@,
        }
    }
}

/// A quarter of the year and its focus.
#[derive(Debug, PartialEq, Eq)]
pub struct Quarter {
    pub label: String,
    pub focus: String,
}

/// The view of [`Quarter`].
pub struct QuarterView {
    pub label: Seq<char>,
    pub focus: Seq<char>,
}

impl View for Quarter {
    type V = QuarterView;

    open spec fn view(&self) -> QuarterView {
        QuarterView {
            label: self.label@,
            focus: self.focus@,
        }
    }
}

/// The hardest month of the year, with guidance.
#[derive(Debug, PartialEq, Eq)]
pub struct ChallengeMonth {
    pub month: String,
    pub guidance: String,
}

/// The view of [`ChallengeMonth`].
pub struct ChallengeMonthView {
    pub month: Seq<char>,
    pub guidance: Seq<char>,
}

impl View for ChallengeMonth {
    type V = ChallengeMonthView;

    open spec fn view(&self) -> ChallengeMonthView {
        ChallengeMonthView {
            month: self.month@,
            guidance: self.guidance@,
        }
    }
}

/// The section on the year.
#[derive(Debug, PartialEq, Eq)]
pub struct Year {
    pub headline: String,
    pub quarters: Vec<Quarter>,
    pub power_months: Vec<String>,
    pub challenge_month: ChallengeMonth,
}

/// The view of [`Year`].
pub struct YearView {
    pub headline: Seq<char>,
    pub quarters: Seq<QuarterView>,
    pub power_months: Seq<Seq<char>>,
    pub challenge_month: ChallengeMonthView,
}

impl View for Year {
    type V = YearView;

    open spec fn view(&self) -> YearView {
        YearView {
            headline: self.headline@,
            quarters: views_of(self.quarters@),
            power_months: strings_of(self.power_months@),
            challenge_month: self.challenge_month@,
        }
    }
}

/// The whole dashboard.
#[derive(Debug, PartialEq, Eq)]
pub struct DashboardDocument {
    pub meta: DashboardMeta,
    pub tabs: DashboardTabs,
    pub today: Today,
    pub cosmic_weather: CosmicWeather,
    pub compatibility: Compatibility,
    pub journal_ritual: JournalRitual,
    pub week: Week,
    pub month: Month,
    pub year: Year,
}

/// The view of [`DashboardDocument`].
pub struct DashboardDocumentView {
    pub meta: DashboardMetaView,
    pub tabs: DashboardTabsView,
    pub today: TodayView,
    pub cosmic_weather: CosmicWeatherView,
    pub compatibility: CompatibilityView,
    pub journal_ritual: JournalRitualView,
    pub week: WeekView,
    pub month: MonthView,
    pub year: YearView,
}

impl View for DashboardDocument {
    type V = DashboardDocumentView;

    open spec fn view(&self) -> DashboardDocumentView {
        DashboardDocumentView {
            meta: self.meta@,
            tabs: self.tabs@,
            today: self.today@,
            cosmic_weather: self.cosmic_weather@,
            compatibility: self.compatibility@,
            journal_ritual: self.journal_ritual@,
            week: self.week@,
            month: self.month@,
            year: self.year@,
        }
    }
}

} // verus!
