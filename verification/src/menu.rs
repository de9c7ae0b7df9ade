//! What the selection menus offer, and what each selection leads to.

use core::str::FromStr;
use vstd::prelude::*;
use crate::enums::{DayOfWeek, Filter, WorkoutType};
use crate::text::same_text;
use crate::workout::Workout;
use crate::workout_list::{of_type, on_day, pointed, slice_by_day, slice_by_type};

verus! {

pub const FILTER_BY_DAY: &'static str = "Filter by day of the week";

pub const FILTER_BY_TYPE: &'static str = "Filter by workout type";

pub const BACK: &'static str = "..";

pub const RANDOM: &'static str = "Random Workout!";

pub const QUIT: &'static str = "Quit";

pub const FILTER_PROMPT: &'static str = "Please select a filter:";

pub const WORKOUT_PROMPT: &'static str = "Choose a workout";

/// One line of a menu: a heading, or an entry that can be selected.
#[derive(Debug)]
pub enum MenuEntry {
    Label(String),
    Button(String),
}

/// What a line of a menu holds.
pub enum MenuEntryModel {
    Label(Seq<char>),
    Button(Seq<char>),
}

/// What a decision on the filter menu holds.
pub enum FilterMenuModel {
    Show(Seq<MenuEntryModel>),
    Main,
    Exit,
}

/// What is shown when a filter is to be chosen.
#[derive(Debug)]
pub enum FilterMenu {
    /// The filters on offer.
    Show(Vec<MenuEntry>),
    /// The main menu, in place of a filter menu.
    Main,
    /// Nothing: the program ends.
    Exit,
}

/// Where the name of a filter leads.
#[derive(Copy, Clone, Debug)]
pub enum Route {
    /// To the workouts that pass the filter.
    Workouts(Filter),
    /// Back to the main menu.
    Back,
    /// Out of the program.
    Exit,
}

/// What a selection in a workout menu asks for.
#[derive(Copy, Clone, Debug)]
pub enum Choice<'a> {
    /// To play the workout.
    Run(&'a Workout),
    /// To go back to the filters.
    Back,
    /// To play any one of the workouts on offer.
    Random,
    /// To leave.
    End,
}

impl View for MenuEntry {
    type V = MenuEntryModel;

    open spec fn view(&self) -> MenuEntryModel {
        match self {
            MenuEntry::Label(text) => MenuEntryModel::Label(text@),
            MenuEntry::Button(text) => MenuEntryModel::Button(text@),
        }
    }
}

impl DeepView for MenuEntry {
    type V = MenuEntryModel;

    open spec fn deep_view(&self) -> MenuEntryModel {
        self@
    }
}

impl View for FilterMenu {
    type V = FilterMenuModel;

    open spec fn view(&self) -> FilterMenuModel {
        match self {
            FilterMenu::Show(list) => FilterMenuModel::Show(list.deep_view()),
            FilterMenu::Main => FilterMenuModel::Main,
            FilterMenu::Exit => FilterMenuModel::Exit,
        }
    }
}

/// The days of the week, from Monday on.
pub open spec fn days() -> Seq<DayOfWeek> {
    seq![
        DayOfWeek::Monday,
        DayOfWeek::Tuesday,
        DayOfWeek::Wednesday,
        DayOfWeek::Thursday,
        DayOfWeek::Friday,
        DayOfWeek::Saturday,
        DayOfWeek::Sunday,
    ]
}

/// The workout types, in the order in which they are offered.
pub open spec fn types() -> Seq<WorkoutType> {
    seq![WorkoutType::LowerBodyAbs, WorkoutType::UpperBodyAbs]
}

/// Whether any of the workouts is meant for a day.
pub open spec fn day_in_use(workouts: Seq<Workout>) -> spec_fn(DayOfWeek) -> bool {
    |day: DayOfWeek| workouts.filter(on_day(day)).len() > 0
}

/// Whether any of the workouts is of a type.
pub open spec fn type_in_use(workouts: Seq<Workout>) -> spec_fn(WorkoutType) -> bool {
    |workout_type: WorkoutType| workouts.filter(of_type(workout_type)).len() > 0
}

/// A button for each day that has a workout.
pub open spec fn day_buttons(workouts: Seq<Workout>) -> Seq<MenuEntryModel> {
    days().filter(day_in_use(workouts)).map_values(
        |day: DayOfWeek| MenuEntryModel::Button(day.label()),
    )
}

/// A button for each workout type that has a workout.
pub open spec fn type_buttons(workouts: Seq<Workout>) -> Seq<MenuEntryModel> {
    types().filter(type_in_use(workouts)).map_values(
        |workout_type: WorkoutType| MenuEntryModel::Button(workout_type.label()),
    )
}

/// A button for each of the workouts, under its title.
pub open spec fn title_buttons(workouts: Seq<Workout>) -> Seq<MenuEntryModel> {
    workouts.map_values(|w: Workout| MenuEntryModel::Button(w.title@))
}

/// The workouts that pass a filter, in the order of the list.
pub open spec fn filtered(filter: Filter, workouts: Seq<Workout>) -> Seq<Workout> {
    match filter {
        Filter::DayOfWeek(day) => workouts.filter(on_day(day)),
        Filter::WorkoutType(workout_type) => workouts.filter(of_type(workout_type)),
    }
}

/// The main menu: the two ways of filtering, and the way out.
pub open spec fn main_menu_entries() -> Seq<MenuEntryModel> {
    seq![
        MenuEntryModel::Button(FILTER_BY_DAY@),
        MenuEntryModel::Button(FILTER_BY_TYPE@),
        MenuEntryModel::Button(QUIT@),
    ]
}

/// A filter menu around the given buttons: the prompt and the way back
/// before them, the way out after them.
pub open spec fn filter_menu_entries(buttons: Seq<MenuEntryModel>) -> Seq<MenuEntryModel> {
    seq![MenuEntryModel::Label(FILTER_PROMPT@), MenuEntryModel::Button(BACK@)] + buttons
        + seq![MenuEntryModel::Button(QUIT@)]
}

/// What is shown after the main menu, given what was selected there: for
/// either way of filtering, the types or the days that have workouts; for
/// the way back, the main menu; for anything else, nothing.
pub open spec fn filter_menu_for(result: Seq<char>, workouts: Seq<Workout>) -> FilterMenuModel {
    if result == FILTER_BY_TYPE@ {
        FilterMenuModel::Show(filter_menu_entries(type_buttons(workouts)))
    } else if result == FILTER_BY_DAY@ {
        FilterMenuModel::Show(filter_menu_entries(day_buttons(workouts)))
    } else if result == BACK@ {
        FilterMenuModel::Main
    } else {
        FilterMenuModel::Exit
    }
}

/// The menu of the workouts that pass a filter: the prompt and the way back
/// before their titles, the random choice and the way out after them.
pub open spec fn workout_menu_entries(filter: Filter, workouts: Seq<Workout>) -> Seq<
    MenuEntryModel,
> {
    seq![MenuEntryModel::Label(WORKOUT_PROMPT@), MenuEntryModel::Button(BACK@)] + title_buttons(
        filtered(filter, workouts),
    ) + seq![MenuEntryModel::Button(RANDOM@), MenuEntryModel::Button(QUIT@)]
}

/// The filter that a name stands for: a day, or else a workout type.
pub open spec fn filter_named(name: Seq<char>) -> Option<Filter> {
    match DayOfWeek::parse(name) {
        Ok(day) => Some(Filter::DayOfWeek(day)),
        Err(_) => match WorkoutType::parse(name) {
            Ok(workout_type) => Some(Filter::WorkoutType(workout_type)),
            Err(_) => None,
        },
    }
}

/// Where the name of a filter leads: to the workouts of the filter that it
/// names, back to the main menu, or out.
pub open spec fn routed(name: Seq<char>) -> Route {
    match filter_named(name) {
        Some(filter) => Route::Workouts(filter),
        None => if name == BACK@ {
            Route::Back
        } else {
            Route::Exit
        },
    }
}

/// The index of the first workout with the given title, if there is one.
pub open spec fn titled(workouts: Seq<Workout>, title: Seq<char>) -> Option<int>
    decreases workouts.len(),
{
    if workouts.len() == 0 {
        None
    } else if workouts[0].title@ == title {
        Some(0)
    } else {
        match titled(workouts.drop_first(), title) {
            Some(i) => Some(i + 1),
            None => None,
        }
    }
}

/// What a selection in a workout menu asks for: the first workout of that
/// title if there is one; else the way back, the random choice, or the end.
pub open spec fn chosen(workouts: Seq<Workout>, title: Seq<char>) -> Choice<'static> {
    match titled(workouts, title) {
        Some(i) => Choice::Run(&workouts[i]),
        None => if title == BACK@ {
            Choice::Back
        } else if title == RANDOM@ {
            Choice::Random
        } else {
            Choice::End
        },
    }
}

/// What `titled` finds is the first workout with the title.
pub proof fn lemma_titled(workouts: Seq<Workout>, title: Seq<char>)
    ensures
        match titled(workouts, title) {
            Some(i) => 0 <= i < workouts.len() && workouts[i].title@ == title && forall|j: int|
                0 <= j < i ==> (#[trigger] workouts[j]).title@ != title,
            None => forall|j: int| 0 <= j < workouts.len() ==> (#[trigger] workouts[j]).title@ != title,
        },
    decreases workouts.len(),
{
    if workouts.len() > 0 && workouts[0].title@ != title {
        let rest = workouts.drop_first();
        lemma_titled(rest, title);
        match titled(rest, title) {
            Some(i) => {
                assert forall|j: int| 0 <= j < i + 1 implies (#[trigger] workouts[j]).title@
                    != title by {
                    if j > 0 {
                        assert(workouts[j] == rest[j - 1]);
                    }
                }
            },
            None => {
                assert forall|j: int| 0 <= j < workouts.len() implies (#[trigger] workouts[j]).title@
                    != title by {
                    if j > 0 {
                        assert(workouts[j] == rest[j - 1]);
                    }
                }
            },
        }
    }
}

/// A workout that is found first from index `from` on, with none of that
/// title before `from`, is the first of them all.
proof fn lemma_titled_from(workouts: Seq<Workout>, title: Seq<char>, from: int)
    requires
        0 <= from <= workouts.len(),
        forall|j: int| 0 <= j < from ==> (#[trigger] workouts[j]).title@ != title,
    ensures
        titled(workouts, title) == (match titled(workouts.skip(from), title) {
            Some(i) => Some(i + from),
            None => None,
        }),
    decreases from,
{
    if from == 0 {
        assert(workouts.skip(0) =~= workouts);
    } else {
        let rest = workouts.drop_first();
        assert forall|j: int| 0 <= j < from - 1 implies (#[trigger] rest[j]).title@ != title by {
            assert(rest[j] == workouts[j + 1]);
        }
        lemma_titled_from(rest, title, from - 1);
        assert(rest.skip(from - 1) =~= workouts.skip(from));
        assert(workouts[0].title@ != title);
    }
}

/// The main menu.
pub fn main_menu() -> (r: Vec<MenuEntry>)
    ensures
        r.deep_view() == main_menu_entries(),
{
    let mut r: Vec<MenuEntry> = Vec::new();
    r.push(MenuEntry::Button(FILTER_BY_DAY.to_owned()));
    r.push(MenuEntry::Button(FILTER_BY_TYPE.to_owned()));
    r.push(MenuEntry::Button(QUIT.to_owned()));
    assert(r.deep_view() =~= main_menu_entries());
    r
}

/// A button for each day that has a workout.
fn buttons_by_day(workouts: &[Workout]) -> (r: Vec<MenuEntry>)
    ensures
        r.deep_view() == day_buttons(workouts@),
{
    let ghost show = |day: DayOfWeek| MenuEntryModel::Button(day.label());
    let values = DayOfWeek::VALUES;
    assert(values@ =~= days());
    let mut r: Vec<MenuEntry> = Vec::new();
    let mut i: usize = 0;
    assert(days().take(0).filter(day_in_use(workouts@)) =~= Seq::<DayOfWeek>::empty()) by {
        reveal(Seq::filter);
    }
    assert(r.deep_view() =~= Seq::<DayOfWeek>::empty().map_values(show));
    while i < 7
        invariant
            i <= 7,
            values@ == days(),
            show == |day: DayOfWeek| MenuEntryModel::Button(day.label()),
            r.deep_view() == days().take(i as int).filter(day_in_use(workouts@)).map_values(show),
        decreases 7 - i,
    {
        let day = values[i];
        let ghost before = days().take(i as int).filter(day_in_use(workouts@));
        let ghost shown = r.deep_view();
        proof {
            assert(days().take(i + 1) =~= days().take(i as int).push(day));
            days().take(i as int).lemma_filter_push(day, day_in_use(workouts@));
        }
        let found = slice_by_day(workouts, &day);
        assert(pointed(found@).len() == found@.len());
        if found.len() > 0 {
            r.push(MenuEntry::Button(day.to_string()));
            assert(r.deep_view() =~= shown.push(show(day)));
            assert(before.push(day).map_values(show) =~= before.map_values(show).push(show(day)));
        }
        i = i + 1;
    }
    assert(days().take(7) =~= days());
    r
}

/// A button for each workout type that has a workout.
fn buttons_by_type(workouts: &[Workout]) -> (r: Vec<MenuEntry>)
    ensures
        r.deep_view() == type_buttons(workouts@),
{
    let ghost show = |workout_type: WorkoutType| MenuEntryModel::Button(workout_type.label());
    let values = WorkoutType::VALUES;
    assert(values@ =~= types());
    let mut r: Vec<MenuEntry> = Vec::new();
    let mut i: usize = 0;
    assert(types().take(0).filter(type_in_use(workouts@)) =~= Seq::<WorkoutType>::empty()) by {
        reveal(Seq::filter);
    }
    assert(r.deep_view() =~= Seq::<WorkoutType>::empty().map_values(show));
    while i < 2
        invariant
            i <= 2,
            values@ == types(),
            show == |workout_type: WorkoutType| MenuEntryModel::Button(workout_type.label()),
            r.deep_view() == types().take(i as int).filter(type_in_use(workouts@)).map_values(show),
        decreases 2 - i,
    {
        let workout_type = values[i];
        let ghost before = types().take(i as int).filter(type_in_use(workouts@));
        let ghost shown = r.deep_view();
        proof {
            assert(types().take(i + 1) =~= types().take(i as int).push(workout_type));
            types().take(i as int).lemma_filter_push(workout_type, type_in_use(workouts@));
        }
        let found = slice_by_type(workouts, &workout_type);
        assert(pointed(found@).len() == found@.len());
        if found.len() > 0 {
            r.push(MenuEntry::Button(workout_type.to_string()));
            assert(r.deep_view() =~= shown.push(show(workout_type)));
            assert(before.push(workout_type).map_values(show) =~= before.map_values(show).push(
                show(workout_type),
            ));
        }
        i = i + 1;
    }
    assert(types().take(2) =~= types());
    r
}

/// The workouts of a list that pass a filter.
pub fn filter_workouts<'a>(filter: &Filter, workouts: &'a [Workout]) -> (r: Vec<&'a Workout>)
    ensures
        pointed(r@) == filtered(*filter, workouts@),
{
    match filter {
        Filter::DayOfWeek(day) => slice_by_day(workouts, day),
        Filter::WorkoutType(workout_type) => slice_by_type(workouts, workout_type),
    }
}

/// What is shown after the main menu, given what was selected there.
pub fn filter_menu(result: &str, workouts: &[Workout]) -> (r: FilterMenu)
    ensures
        r@ == filter_menu_for(result@, workouts@),
{
    let mut buttons = if same_text(result, FILTER_BY_TYPE) {
        buttons_by_type(workouts)
    } else if same_text(result, FILTER_BY_DAY) {
        buttons_by_day(workouts)
    } else if same_text(result, BACK) {
        return FilterMenu::Main;
    } else {
        return FilterMenu::Exit;
    };
    let ghost offered = buttons.deep_view();
    let mut list: Vec<MenuEntry> = Vec::new();
    list.push(MenuEntry::Label(FILTER_PROMPT.to_owned()));
    list.push(MenuEntry::Button(BACK.to_owned()));
    list.append(&mut buttons);
    list.push(MenuEntry::Button(QUIT.to_owned()));
    assert(list.deep_view() =~= filter_menu_entries(offered));
    FilterMenu::Show(list)
}

/// The menu of the workouts that pass a filter.
pub fn workout_menu(filter: Filter, workouts: &[Workout]) -> (list: Vec<MenuEntry>)
    ensures
        list.deep_view() == workout_menu_entries(filter, workouts@),
{
    let found = filter_workouts(&filter, workouts);
    let ghost offered = pointed(found@);
    let mut list: Vec<MenuEntry> = Vec::new();
    list.push(MenuEntry::Label(WORKOUT_PROMPT.to_owned()));
    list.push(MenuEntry::Button(BACK.to_owned()));
    let ghost head = list.deep_view();
    let mut i: usize = 0;
    while i < found.len()
        invariant
            i <= found.len(),
            offered == pointed(found@),
            head == seq![MenuEntryModel::Label(WORKOUT_PROMPT@), MenuEntryModel::Button(BACK@)],
            list.deep_view() == head + title_buttons(offered.take(i as int)),
        decreases found.len() - i,
    {
        let ghost shown = list.deep_view();
        list.push(MenuEntry::Button(found[i].title.clone()));
        proof {
            assert(offered[i as int] == *found@[i as int]);
            assert(offered.take(i + 1) =~= offered.take(i as int).push(offered[i as int]));
            assert(list.deep_view() =~= shown.push(MenuEntryModel::Button(offered[i as int].title@)));
            assert(list.deep_view() =~= head + title_buttons(offered.take(i + 1)));
        }
        i = i + 1;
    }
    assert(offered.take(i as int) =~= offered);
    list.push(MenuEntry::Button(RANDOM.to_owned()));
    list.push(MenuEntry::Button(QUIT.to_owned()));
    assert(list.deep_view() =~= workout_menu_entries(filter, workouts@));
    list
}

/// Where the name of a filter leads.
pub fn route(name: &str) -> (r: Route)
    ensures
        r == routed(name@),
{
    match DayOfWeek::from_str(name) {
        Ok(day) => Route::Workouts(Filter::DayOfWeek(day)),
        Err(_) => match WorkoutType::from_str(name) {
            Ok(workout_type) => Route::Workouts(Filter::WorkoutType(workout_type)),
            Err(_) => {
                if same_text(name, BACK) {
                    Route::Back
                } else {
                    Route::Exit
                }
            },
        },
    }
}

/// What a selection in a workout menu asks for.
pub fn choose_workout<'a>(title: &str, workouts: &'a [Workout]) -> (r: Choice<'a>)
    ensures
        r == chosen(workouts@, title@),
{
    let mut i: usize = 0;
    while i < workouts.len()
        invariant
            i <= workouts.len(),
            forall|j: int| 0 <= j < i ==> (#[trigger] workouts@[j]).title@ != title@,
        decreases workouts.len() - i,
    {
        if same_text(workouts[i].title.as_str(), title) {
            proof {
                lemma_titled_from(workouts@, title@, i as int);
                assert(workouts@.skip(i as int)[0] == workouts@[i as int]);
            }
            return Choice::Run(&workouts[i]);
        }
        i = i + 1;
    }
    proof {
        lemma_titled_from(workouts@, title@, i as int);
        assert(workouts@.skip(i as int).len() == 0);
    }
    if same_text(title, BACK) {
        Choice::Back
    } else if same_text(title, RANDOM) {
        Choice::Random
    } else {
        Choice::End
    }
}

/// Picks one of the given workouts at random.
///
/// Calls `choose` of `rand::seq::SliceRandom` on the list with the thread's
/// generator. As rand documents it, there is no result for an empty list,
/// and otherwise the result is one of the entries of the list; which one is
/// left open.
#[verifier::external_body]
fn pick<'a>(list: &Vec<&'a Workout>) -> (r: Option<&'a Workout>)
    ensures
        r is None <==> list@.len() == 0,
        r matches Some(w) ==> list@.contains(w),
{
    rand::seq::SliceRandom::choose(list.as_slice(), &mut rand::thread_rng()).copied()
}

/// One of the workouts that pass a filter, picked at random; none where no
/// workout passes.
pub fn random_workout<'a>(filter: &Filter, workouts: &'a [Workout]) -> (r: Option<&'a Workout>)
    ensures
        r is None <==> filtered(*filter, workouts@).len() == 0,
        r matches Some(w) ==> filtered(*filter, workouts@).contains(*w),
{
    let found = filter_workouts(filter, workouts);
    let r = pick(&found);
    proof {
        assert(pointed(found@).len() == found@.len());
        match r {
            Some(w) => {
                let i = choose|i: int| 0 <= i < found@.len() && found@[i] == w;
                assert(pointed(found@)[i] == *w);
            },
            None => {},
        }
    }
    r
}

} // verus!
