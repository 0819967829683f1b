//! Timezone selection: a two-level menu, region then city, over
//! `/usr/share/zoneinfo/`.

use vstd::prelude::*;
use super::{Key, StepResult};
use super::list::{list_down, list_up, select_down, select_up};
use super::display::{Body, BodyModel, ScreenModel, ScreenText, Tone, TextLine, lines_view, list_row, list_rows, plain, push_fixed, screen_view};
use crate::config::TIMEZONE_REGIONS;
use crate::sort::{sort_texts, text_le_fn, texts_view};
use crate::text::push_str;

verus! {

#[derive(Debug, Clone, Copy, PartialEq, Eq, Structural)]
pub enum TimezonePhase {
    Region,
    City,
}

pub struct TimezoneScreen {
    phase: TimezonePhase,
    regions: Vec<String>,
    cities: Vec<String>,
    region_sel: Option<usize>,
    city_sel: Option<usize>,
    selected_region: String,
    cities_pending: bool,
}

pub struct TimezoneModel {
    pub phase: TimezonePhase,
    pub regions: Seq<Seq<char>>,
    pub cities: Seq<Seq<char>>,
    pub region_sel: Option<usize>,
    pub city_sel: Option<usize>,
    pub selected_region: Seq<char>,
    /// A region was entered and its cities still have to be read.
    pub cities_pending: bool,
}

impl View for TimezoneScreen {
    type V = TimezoneModel;

    closed spec fn view(&self) -> TimezoneModel {
        TimezoneModel {
            phase: self.phase,
            regions: texts_view(self.regions@),
            cities: texts_view(self.cities@),
            region_sel: self.region_sel,
            city_sel: self.city_sel,
            selected_region: self.selected_region@,
            cities_pending: self.cities_pending,
        }
    }
}

/// Both highlights are on a row of their lists, and a non-empty city list
/// has one; region names are never empty; a region is entered (and only
/// then named) when its cities are on screen, and never when there are no
/// regions.
pub open spec fn timezone_wf(m: TimezoneModel) -> bool {
    &&& m.region_sel matches Some(i) ==> i < m.regions.len()
    &&& m.city_sel matches Some(i) ==> i < m.cities.len()
    &&& m.cities.len() > 0 ==> m.city_sel is Some
    &&& forall|i: int| 0 <= i < m.regions.len() ==> (#[trigger] m.regions[i]).len() > 0
    &&& m.phase == TimezonePhase::City ==> m.selected_region.len() > 0
    &&& m.regions.len() == 0 ==> m.selected_region.len() == 0
}

/// The regions of `TIMEZONE_REGIONS` whose directory exists, in order.
pub open spec fn present_regions(present: Seq<bool>, n: int) -> Seq<Seq<char>>
    decreases n,
{
    if n <= 0 {
        seq![]
    } else if present[n - 1] {
        present_regions(present, n - 1).push(TIMEZONE_REGIONS@[n - 1]@)
    } else {
        present_regions(present, n - 1)
    }
}

/// The entries that are regular files, in order.
pub open spec fn file_names(names: Seq<Seq<char>>, is_file: Seq<bool>, n: int) -> Seq<Seq<char>>
    decreases n,
{
    if n <= 0 {
        seq![]
    } else if is_file[n - 1] {
        file_names(names, is_file, n - 1).push(names[n - 1])
    } else {
        file_names(names, is_file, n - 1)
    }
}

/// The first row is highlighted in a non-empty list.
pub open spec fn first_row(len: nat) -> Option<usize> {
    if len > 0 { Some(0usize) } else { None }
}

/// The timezone chosen: `<region>/<city>` once a region was entered and a city
/// is highlighted, UTC otherwise.
pub open spec fn timezone_of(m: TimezoneModel) -> Seq<char> {
    if m.selected_region.len() == 0 {
        "UTC"@
    } else {
        match m.city_sel {
            Some(i) => if i < m.cities.len() { m.selected_region + "/"@ + m.cities[i as int] } else { "UTC"@ },
            None => "UTC"@,
        }
    }
}

/// One key press on the timezone screen. Enter on a region selects it and
/// switches to its cities, which are then read; with no regions at all Enter
/// goes on with UTC. Enter on a city goes on; with no cities it returns to the
/// regions. Esc on the cities returns to the regions, on the regions goes back.
pub open spec fn timezone_step(m: TimezoneModel, key: Key) -> (TimezoneModel, StepResult) {
    match m.phase {
        TimezonePhase::Region => match key {
            Key::Up => (TimezoneModel { region_sel: list_up(m.region_sel), ..m }, StepResult::Continue),
            Key::Down => (
                TimezoneModel { region_sel: list_down(m.region_sel, m.regions.len()), ..m },
                StepResult::Continue,
            ),
            Key::Enter => if m.regions.len() == 0 {
                (m, StepResult::Next)
            } else {
                match m.region_sel {
                    Some(i) => (
                        TimezoneModel {
                            selected_region: m.regions[i as int],
                            cities: seq![],
                            city_sel: None,
                            cities_pending: true,
                            phase: TimezonePhase::City,
                            ..m
                        },
                        StepResult::Continue,
                    ),
                    None => (m, StepResult::Continue),
                }
            },
            Key::Esc => (m, StepResult::Back),
            _ => (m, StepResult::Continue),
        },
        TimezonePhase::City => match key {
            Key::Up => (TimezoneModel { city_sel: list_up(m.city_sel), ..m }, StepResult::Continue),
            Key::Down => (
                TimezoneModel { city_sel: list_down(m.city_sel, m.cities.len()), ..m },
                StepResult::Continue,
            ),
            Key::Enter => if m.cities.len() == 0 {
                (TimezoneModel { phase: TimezonePhase::Region, ..m }, StepResult::Continue)
            } else {
                (m, StepResult::Next)
            },
            Key::Esc => (TimezoneModel { phase: TimezonePhase::Region, ..m }, StepResult::Continue),
            _ => (m, StepResult::Continue),
        },
    }
}

/// The timezone screen: the regions, or the cities of the entered region,
/// as a list; a message when the list is empty.
pub open spec fn timezone_screen(m: TimezoneModel) -> ScreenModel {
    match m.phase {
        TimezonePhase::Region => ScreenModel {
            title: "Timezone Region"@,
            footer: " [Up/Down] Select  [Enter] Confirm  [Esc] Back "@,
            width: 50,
            height: 22,
            body: if m.regions.len() == 0 {
                BodyModel::Text(false, seq![plain("No timezone regions found. Using UTC."@)])
            } else {
                BodyModel::Choice(m.regions.map_values(|r: Seq<char>| list_row(r)), m.region_sel)
            },
        },
        TimezonePhase::City => ScreenModel {
            title: "Timezone"@,
            footer: " [Up/Down] Select  [Enter] Confirm  [Esc] Back to region "@,
            width: 50,
            height: 22,
            body: if m.cities.len() == 0 {
                BodyModel::Text(false, seq![plain("No cities found. Using UTC."@)])
            } else {
                BodyModel::Choice(m.cities.map_values(|c: Seq<char>| list_row(c)), m.city_sel)
            },
        },
    }
}

impl TimezoneScreen {
    pub fn text(&self) -> (r: ScreenText)
        ensures
            screen_view(r) == timezone_screen(self@),
    {
        match self.phase {
            TimezonePhase::Region => {
                let title = "Timezone Region";
                let footer = " [Up/Down] Select  [Enter] Confirm  [Esc] Back ";
                if self.regions.len() == 0 {
                    let mut lines: Vec<TextLine> = Vec::new();
                    push_fixed(&mut lines, Tone::Plain, "No timezone regions found. Using UTC.");
                    let ghost lv = lines_view(lines@);
                    assert(lv =~= seq![plain("No timezone regions found. Using UTC."@)]);
                    ScreenText { title, footer, width: 50, height: 22, body: Body::Text { centered: false, lines } }
                } else {
                    let items = list_rows(&self.regions);
                    ScreenText { title, footer, width: 50, height: 22, body: Body::Choice { items, selected: self.region_sel } }
                }
            },
            TimezonePhase::City => {
                let title = "Timezone";
                let footer = " [Up/Down] Select  [Enter] Confirm  [Esc] Back to region ";
                if self.cities.len() == 0 {
                    let mut lines: Vec<TextLine> = Vec::new();
                    push_fixed(&mut lines, Tone::Plain, "No cities found. Using UTC.");
                    let ghost lv = lines_view(lines@);
                    assert(lv =~= seq![plain("No cities found. Using UTC."@)]);
                    ScreenText { title, footer, width: 50, height: 22, body: Body::Text { centered: false, lines } }
                } else {
                    let items = list_rows(&self.cities);
                    ScreenText { title, footer, width: 50, height: 22, body: Body::Choice { items, selected: self.city_sel } }
                }
            },
        }
    }

    pub closed spec fn wf(&self) -> bool {
        timezone_wf(self@)
    }

    /// The screen for the regions whose directory exists; `present[i]` says
    /// whether `/usr/share/zoneinfo/<TIMEZONE_REGIONS[i]>` is a directory.
    pub fn new(present: &Vec<bool>) -> (s: Self)
        requires
            present@.len() == 11,
        ensures
            s.wf(),
            s@.phase == TimezonePhase::Region,
            s@.regions == present_regions(present@, 11),
            s@.region_sel == first_row(s@.regions.len()),
            s@.cities.len() == 0,
            s@.city_sel is None,
            s@.selected_region.len() == 0,
            !s@.cities_pending,
    {
        proof {
            reveal_strlit("Africa");
            reveal_strlit("America");
            reveal_strlit("Antarctica");
            reveal_strlit("Arctic");
            reveal_strlit("Asia");
            reveal_strlit("Atlantic");
            reveal_strlit("Australia");
            reveal_strlit("Europe");
            reveal_strlit("Indian");
            reveal_strlit("Pacific");
            reveal_strlit("US");
            assert forall|k: int| 0 <= k < 11 implies (#[trigger] TIMEZONE_REGIONS@[k])@.len() > 0 by {
                assert(TIMEZONE_REGIONS@[0]@ == "Africa"@);
                assert(TIMEZONE_REGIONS@[1]@ == "America"@);
                assert(TIMEZONE_REGIONS@[2]@ == "Antarctica"@);
                assert(TIMEZONE_REGIONS@[3]@ == "Arctic"@);
                assert(TIMEZONE_REGIONS@[4]@ == "Asia"@);
                assert(TIMEZONE_REGIONS@[5]@ == "Atlantic"@);
                assert(TIMEZONE_REGIONS@[6]@ == "Australia"@);
                assert(TIMEZONE_REGIONS@[7]@ == "Europe"@);
                assert(TIMEZONE_REGIONS@[8]@ == "Indian"@);
                assert(TIMEZONE_REGIONS@[9]@ == "Pacific"@);
                assert(TIMEZONE_REGIONS@[10]@ == "US"@);
            }
        }
        let mut regions: Vec<String> = Vec::new();
        let mut i: usize = 0;
        while i < 11
            invariant
                i <= 11,
                present@.len() == 11,
                texts_view(regions@) == present_regions(present@, i as int),
                forall|k: int| 0 <= k < 11 ==> (#[trigger] TIMEZONE_REGIONS@[k])@.len() > 0,
                forall|j: int| 0 <= j < regions@.len() ==> (#[trigger] texts_view(regions@)[j]).len() > 0,
            decreases 11 - i,
        {
            let ghost before = texts_view(regions@);
            if present[i] {
                assert(TIMEZONE_REGIONS@[i as int]@.len() > 0);
                regions.push(TIMEZONE_REGIONS[i].to_owned());
                assert(texts_view(regions@) =~= before.push(TIMEZONE_REGIONS@[i as int]@));
            }
            i = i + 1;
            assert(texts_view(regions@) =~= present_regions(present@, i as int));
        }
        let region_sel = if regions.len() > 0 { Some(0) } else { None };
        Self {
            phase: TimezonePhase::Region,
            regions,
            cities: Vec::new(),
            region_sel,
            city_sel: None,
            selected_region: String::new(),
            cities_pending: false,
        }
    }

    pub fn selected_timezone(&self) -> (r: String)
        ensures
            r@ == timezone_of(self@),
    {
        if self.selected_region.as_str().is_empty() {
            return "UTC".to_owned();
        }
        if let Some(idx) = self.city_sel {
            if idx < self.cities.len() {
                let mut s = self.selected_region.clone();
                push_str(&mut s, "/");
                push_str(&mut s, self.cities[idx].as_str());
                assert(texts_view(self.cities@)[idx as int] == self.cities@[idx as int]@);
                return s;
            }
        }
        "UTC".to_owned()
    }

    /// A region was entered and its cities have to be read next.
    pub fn needs_cities(&self) -> (b: bool)
        ensures
            b == self@.cities_pending,
    {
        self.cities_pending
    }

    /// The directory whose entries are the cities of the entered region.
    pub fn city_dir(&self) -> (r: String)
        ensures
            r@ == "/usr/share/zoneinfo/"@ + self@.selected_region,
    {
        let mut s = "/usr/share/zoneinfo/".to_owned();
        push_str(&mut s, self.selected_region.as_str());
        s
    }

    /// Fills the city list from the entries of the region's directory:
    /// the names that are regular files, sorted; the first is highlighted.
    /// A directory that could not be read gives no entries.
    pub fn load_cities(&mut self, names: &Vec<String>, is_file: &Vec<bool>)
        requires
            old(self).wf(),
            names@.len() == is_file@.len(),
        ensures
            final(self).wf(),
            final(self)@ == (TimezoneModel {
                cities: file_names(texts_view(names@), is_file@, names@.len() as int).sort_by(text_le_fn()),
                city_sel: first_row(final(self)@.cities.len()),
                cities_pending: false,
                ..old(self)@
            }),
    {
        let mut files: Vec<String> = Vec::new();
        let mut i: usize = 0;
        while i < names.len()
            invariant
                i <= names@.len(),
                names@.len() == is_file@.len(),
                texts_view(files@) == file_names(texts_view(names@), is_file@, i as int),
            decreases names@.len() - i,
        {
            if is_file[i] {
                files.push(names[i].clone());
            }
            i = i + 1;
            assert(texts_view(files@) =~= file_names(texts_view(names@), is_file@, i as int));
        }
        let sorted = sort_texts(&files);
        proof {
            crate::sort::lemma_text_le_total_ordering();
            assert(texts_view(sorted@).len() == sorted@.len());
        }
        self.city_sel = if sorted.len() > 0 { Some(0) } else { None };
        self.cities = sorted;
        self.cities_pending = false;
    }

    pub fn phase(&self) -> (r: TimezonePhase)
        ensures
            r == self@.phase,
    {
        self.phase
    }

    pub fn regions(&self) -> (r: &Vec<String>)
        ensures
            texts_view(r@) == self@.regions,
    {
        &self.regions
    }

    pub fn cities(&self) -> (r: &Vec<String>)
        ensures
            texts_view(r@) == self@.cities,
    {
        &self.cities
    }

    pub fn region_index(&self) -> (r: Option<usize>)
        ensures
            r == self@.region_sel,
    {
        self.region_sel
    }

    pub fn city_index(&self) -> (r: Option<usize>)
        ensures
            r == self@.city_sel,
    {
        self.city_sel
    }

    pub fn handle_input(&mut self, key: Key) -> (r: StepResult)
        requires
            old(self).wf(),
        ensures
            final(self).wf(),
            (final(self)@, r) == timezone_step(old(self)@, key),
            r == StepResult::Next <==> key == Key::Enter && ((old(self)@.phase == TimezonePhase::Region
                && old(self)@.regions.len() == 0) || (old(self)@.phase == TimezonePhase::City
                && old(self)@.cities.len() > 0)),
            r == StepResult::Next && old(self)@.phase == TimezonePhase::Region ==> timezone_of(final(self)@)
                == "UTC"@,
            r == StepResult::Next && old(self)@.phase == TimezonePhase::City ==> (final(self)@.city_sel matches Some(
                i,
            ) && i < final(self)@.cities.len() && final(self)@.selected_region.len() > 0 && timezone_of(
                final(self)@,
            ) == final(self)@.selected_region + "/"@ + final(self)@.cities[i as int]),
            r == StepResult::Back <==> old(self)@.phase == TimezonePhase::Region && key == Key::Esc,
            final(self)@.region_sel matches Some(i) ==> i < final(self)@.regions.len(),
            final(self)@.city_sel matches Some(i) ==> i < final(self)@.cities.len(),
            key == Key::Up || key == Key::Down ==> r == StepResult::Continue && final(self)@.phase == old(self)@.phase
                && final(self)@.regions == old(self)@.regions && final(self)@.cities == old(self)@.cities
                && final(self)@.selected_region == old(self)@.selected_region,
            old(self)@.phase == TimezonePhase::City && (key == Key::Up || key == Key::Down) ==> final(self)@.region_sel
                == old(self)@.region_sel,
            old(self)@.phase == TimezonePhase::Region && (key == Key::Up || key == Key::Down) ==> final(self)@.city_sel
                == old(self)@.city_sel,
            old(self)@.city_sel matches Some(i) ==> (old(self)@.phase == TimezonePhase::City && key == Key::Up ==> final(self)@.city_sel == Some(
                (if i > 0 { i - 1 } else { i as int }) as usize)),
            old(self)@.city_sel matches Some(i) ==> (old(self)@.phase == TimezonePhase::City && key == Key::Down ==> final(self)@.city_sel == Some(
                (if i + 1 < old(self)@.cities.len() { i + 1 } else { i as int }) as usize)),
            old(self)@.phase == TimezonePhase::City && old(self)@.city_sel is None && (key == Key::Up || key == Key::Down) ==> final(self)@.city_sel is None,
            old(self)@.region_sel matches Some(i) ==> (old(self)@.phase == TimezonePhase::Region && key == Key::Up ==> final(self)@.region_sel == Some(
                (if i > 0 { i - 1 } else { i as int }) as usize)),
            old(self)@.region_sel matches Some(i) ==> (old(self)@.phase == TimezonePhase::Region && key == Key::Down ==> final(self)@.region_sel == Some(
                (if i + 1 < old(self)@.regions.len() { i + 1 } else { i as int }) as usize)),
            old(self)@.phase == TimezonePhase::Region && old(self)@.region_sel is None && (key == Key::Up || key == Key::Down) ==> final(self)@.region_sel is None,
    {
        match self.phase {
            TimezonePhase::Region => match key {
                Key::Up => {
                    self.region_sel = select_up(self.region_sel);
                    StepResult::Continue
                },
                Key::Down => {
                    self.region_sel = select_down(self.region_sel, self.regions.len());
                    StepResult::Continue
                },
                Key::Enter => {
                    if self.regions.len() == 0 {
                        return StepResult::Next;
                    }
                    if let Some(idx) = self.region_sel {
                        self.selected_region = self.regions[idx].clone();
                        self.cities = Vec::new();
                        self.city_sel = None;
                        self.cities_pending = true;
                        self.phase = TimezonePhase::City;
                        assert(texts_view(self.cities@) =~= Seq::<Seq<char>>::empty());
                    }
                    StepResult::Continue
                },
                Key::Esc => StepResult::Back,
                _ => StepResult::Continue,
            },
            TimezonePhase::City => match key {
                Key::Up => {
                    self.city_sel = select_up(self.city_sel);
                    StepResult::Continue
                },
                Key::Down => {
                    self.city_sel = select_down(self.city_sel, self.cities.len());
                    StepResult::Continue
                },
                Key::Enter => {
                    if self.cities.len() == 0 {
                        self.phase = TimezonePhase::Region;
                        return StepResult::Continue;
                    }
                    StepResult::Next
                },
                Key::Esc => {
                    self.phase = TimezonePhase::Region;
                    StepResult::Continue
                },
                _ => StepResult::Continue,
            },
        }
    }
}

} // verus!
