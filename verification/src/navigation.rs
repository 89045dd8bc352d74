//! The sidebar: its pages, the selection, and building each page on its first
//! visit.

use vstd::prelude::*;

verus! {

/// The pages of the main window.
#[derive(Debug, Clone, Copy, PartialEq, Eq, Structural)]
pub enum Page {
    Home,
    Temperatures,
    Usage,
    Network,
    Lighting,
    Fan,
    FanControl,
    Battery,
    Gpu,
    Monitor,
    Tools,
    Drivers,
    Settings,
}

/// How many pages the sidebar lists.
pub const PAGE_COUNT: usize = 13;

/// The pages in the order of the sidebar.
pub open spec fn sidebar() -> Seq<Page> {
    seq![
        Page::Home,
        Page::Temperatures,
        Page::Usage,
        Page::Network,
        Page::Lighting,
        Page::Fan,
        Page::FanControl,
        Page::Battery,
        Page::Gpu,
        Page::Monitor,
        Page::Tools,
        Page::Drivers,
        Page::Settings,
    ]
}

/// The place of a page in the sidebar.
pub open spec fn place(page: Page) -> int {
    match page {
        Page::Home => 0,
        Page::Temperatures => 1,
        Page::Usage => 2,
        Page::Network => 3,
        Page::Lighting => 4,
        Page::Fan => 5,
        Page::FanControl => 6,
        Page::Battery => 7,
        Page::Gpu => 8,
        Page::Monitor => 9,
        Page::Tools => 10,
        Page::Drivers => 11,
        Page::Settings => 12,
    }
}

/// Every page has one place in the sidebar, and every place one page.
pub proof fn places_and_pages_match(page: Page, idx: int)
    ensures
        sidebar().len() == PAGE_COUNT,
        0 <= place(page) < PAGE_COUNT,
        sidebar()[place(page)] == page,
        0 <= idx < PAGE_COUNT ==> place(sidebar()[idx]) == idx,
{
}

/// The page at a place of the sidebar.
pub fn page_at(idx: usize) -> (page: Option<Page>)
    ensures
        page == if idx < PAGE_COUNT {
            Some(sidebar()[idx as int])
        } else {
            None
        },
{
    match idx {
        0 => Some(Page::Home),
        1 => Some(Page::Temperatures),
        2 => Some(Page::Usage),
        3 => Some(Page::Network),
        4 => Some(Page::Lighting),
        5 => Some(Page::Fan),
        6 => Some(Page::FanControl),
        7 => Some(Page::Battery),
        8 => Some(Page::Gpu),
        9 => Some(Page::Monitor),
        10 => Some(Page::Tools),
        11 => Some(Page::Drivers),
        12 => Some(Page::Settings),
        _ => None,
    }
}

/// The place of a page in the sidebar.
pub fn page_place(page: Page) -> (idx: usize)
    ensures
        idx == place(page),
{
    match page {
        Page::Home => 0,
        Page::Temperatures => 1,
        Page::Usage => 2,
        Page::Network => 3,
        Page::Lighting => 4,
        Page::Fan => 5,
        Page::FanControl => 6,
        Page::Battery => 7,
        Page::Gpu => 8,
        Page::Monitor => 9,
        Page::Tools => 10,
        Page::Drivers => 11,
        Page::Settings => 12,
    }
}

/// The name under which the stack of pages knows a page.
pub fn page_name(page: Page) -> (name: &'static str)
    ensures
        name@ == match page {
            Page::Home => "home"@,
            Page::Temperatures => "temperatures"@,
            Page::Usage => "usage"@,
            Page::Network => "network"@,
            Page::Lighting => "lighting"@,
            Page::Fan => "fan"@,
            Page::FanControl => "fan_ctrl"@,
            Page::Battery => "battery"@,
            Page::Gpu => "gpu"@,
            Page::Monitor => "monitor"@,
            Page::Tools => "tools"@,
            Page::Drivers => "drivers"@,
            Page::Settings => "settings"@,
        },
{
    match page {
        Page::Home => "home",
        Page::Temperatures => "temperatures",
        Page::Usage => "usage",
        Page::Network => "network",
        Page::Lighting => "lighting",
        Page::Fan => "fan",
        Page::FanControl => "fan_ctrl",
        Page::Battery => "battery",
        Page::Gpu => "gpu",
        Page::Monitor => "monitor",
        Page::Tools => "tools",
        Page::Drivers => "drivers",
        Page::Settings => "settings",
    }
}

/// The key of a page's translated label.
pub fn page_label_key(page: Page) -> (key: &'static str)
    ensures
        key@ == match page {
            Page::Home => "home_page"@,
            Page::Temperatures => "temperatures"@,
            Page::Usage => "usage"@,
            Page::Network => "network"@,
            Page::Lighting => "lighting"@,
            Page::Fan => "perf_mode"@,
            Page::FanControl => "fan_control"@,
            Page::Battery => "battery"@,
            Page::Gpu => "gpu_menu"@,
            Page::Monitor => "monitoring"@,
            Page::Tools => "tools_nav"@,
            Page::Drivers => "drivers_and_manuals"@,
            Page::Settings => "settings"@,
        },
{
    match page {
        Page::Home => "home_page",
        Page::Temperatures => "temperatures",
        Page::Usage => "usage",
        Page::Network => "network",
        Page::Lighting => "lighting",
        Page::Fan => "perf_mode",
        Page::FanControl => "fan_control",
        Page::Battery => "battery",
        Page::Gpu => "gpu_menu",
        Page::Monitor => "monitoring",
        Page::Tools => "tools_nav",
        Page::Drivers => "drivers_and_manuals",
        Page::Settings => "settings",
    }
}

/// What a visit calls for.
#[derive(Debug, Clone, Copy, PartialEq, Eq, Structural)]
pub enum Visit {
    /// There is no such place.
    Ignored,
    /// Show the page, after building it where it has not been built yet.
    Show { page: Page, build: bool },
}

/// The keys that the sidebar listens to.
#[derive(Debug, Clone, Copy, PartialEq, Eq, Structural)]
pub enum NavKey {
    Up,
    Down,
    Other,
}

/// The place that a key leads to; other keys are left to whoever has focus.
pub open spec fn key_target(active: int, key: NavKey) -> Option<int> {
    match key {
        NavKey::Down => Some(
            if active + 1 < PAGE_COUNT {
                active + 1
            } else {
                PAGE_COUNT - 1
            },
        ),
        NavKey::Up => Some(
            if active > 0 {
                active - 1
            } else {
                0
            },
        ),
        NavKey::Other => None,
    }
}

/// The selection of the sidebar and the pages built so far.
#[derive(Debug)]
pub struct Navigation {
    active: usize,
    built: Vec<bool>,
}

/// The selected place and, for each place, whether its page is built.
#[verifier::ext_equal]
pub struct NavigationView {
    pub active: int,
    pub built: Seq<bool>,
}

impl NavigationView {
    /// What a visit to a place calls for.
    pub open spec fn visit(self, idx: int) -> Visit {
        if 0 <= idx < PAGE_COUNT {
            Visit::Show { page: sidebar()[idx], build: !self.built[idx] }
        } else {
            Visit::Ignored
        }
    }

    /// The temperatures are what the user is looking at.
    pub open spec fn shows_temperatures(self, window_visible: bool) -> bool {
        window_visible && self.active == place(Page::Temperatures)
    }

    /// The sidebar after a visit to a place.
    pub open spec fn visited(self, idx: int) -> NavigationView {
        if 0 <= idx < PAGE_COUNT {
            NavigationView { active: idx, built: self.built.update(idx, true) }
        } else {
            self
        }
    }
}

/// The sidebar of a new window: the home page, built and selected.
pub open spec fn first_sight() -> NavigationView {
    NavigationView { active: 0, built: Seq::new(PAGE_COUNT as nat, |i: int| i == 0) }
}

impl View for Navigation {
    type V = NavigationView;

    closed spec fn view(&self) -> NavigationView {
        NavigationView { active: self.active as int, built: self.built@ }
    }
}

impl Navigation {
    #[verifier::type_invariant]
    spec fn fits(self) -> bool {
        self.active < PAGE_COUNT && self.built@.len() == PAGE_COUNT
    }

    /// The sidebar of a new window.
    pub fn new() -> (navigation: Navigation)
        ensures
            navigation@ == first_sight(),
    {
        let mut built: Vec<bool> = Vec::new();
        built.push(true);
        while built.len() < PAGE_COUNT
            invariant
                1 <= built.len() <= PAGE_COUNT,
                forall|i: int| 0 <= i < built.len() ==> built@[i] == (i == 0),
            decreases PAGE_COUNT - built.len(),
        {
            built.push(false);
        }
        let navigation = Navigation { active: 0, built };
        assert(navigation@.built =~= first_sight().built);
        navigation
    }

    /// The selected place.
    pub fn active(&self) -> (idx: usize)
        ensures
            idx == self@.active,
            idx < PAGE_COUNT,
    {
        proof {
            use_type_invariant(self);
        }
        self.active
    }

    /// Whether a place is the selected one.
    pub fn is_active(&self, idx: usize) -> (active: bool)
        ensures
            active == (idx == self@.active),
    {
        idx == self.active
    }

    /// Sees to it that a page exists: the answer is whether it has to be built
    /// now. A page is built once; afterwards it counts as built.
    pub fn ensure_page_built(&mut self, page: Page) -> (build: bool)
        ensures
            old(self)@.built.len() == PAGE_COUNT,
            final(self)@.built.len() == PAGE_COUNT,
            build == !old(self)@.built[place(page)],
            final(self)@ == (NavigationView {
                built: old(self)@.built.update(place(page), true),
                ..old(self)@
            }),
    {
        proof {
            use_type_invariant(&*self);
        }
        let idx = page_place(page);
        if self.built[idx] {
            assert(self@.built.update(place(page), true) =~= self@.built);
            return false;
        }
        self.built[idx] = true;
        true
    }

    /// Goes to a place of the sidebar. A place that does not exist is ignored.
    pub fn navigate_to(&mut self, idx: usize) -> (visit: Visit)
        ensures
            old(self)@.built.len() == PAGE_COUNT,
            final(self)@.built.len() == PAGE_COUNT,
            visit == old(self)@.visit(idx as int),
            final(self)@ == old(self)@.visited(idx as int),
    {
        proof {
            use_type_invariant(&*self);
        }
        let page = match page_at(idx) {
            Some(page) => page,
            None => return Visit::Ignored,
        };
        proof {
            places_and_pages_match(page, idx as int);
        }
        self.active = idx;
        let build = self.ensure_page_built(page);
        Visit::Show { page, build }
    }

    /// The place that a key leads to from the selected one, one up or one down
    /// and never past either end.
    pub fn key_pressed(&self, key: NavKey) -> (target: Option<usize>)
        ensures
            match target {
                Some(idx) => key_target(self@.active, key) == Some(idx as int) && idx < PAGE_COUNT,
                None => key_target(self@.active, key) is None,
            },
    {
        proof {
            use_type_invariant(self);
        }
        match key {
            NavKey::Down => if self.active + 1 < PAGE_COUNT {
                Some(self.active + 1)
            } else {
                Some(PAGE_COUNT - 1)
            },
            NavKey::Up => if self.active > 0 {
                Some(self.active - 1)
            } else {
                Some(0)
            },
            NavKey::Other => None,
        }
    }

    /// Whether the temperatures have to be drawn anew: they are what the user
    /// is looking at, in a window that is shown.
    pub fn temperatures_due(&self, window_visible: bool) -> (due: bool)
        ensures
            due == (window_visible && self@.active == place(Page::Temperatures)),
            due == self@.shows_temperatures(window_visible),
    {
        window_visible && self.active == page_place(Page::Temperatures)
    }
}

/// The sidebar after a run of visits.
pub open spec fn after_visits(start: NavigationView, visits: Seq<int>) -> NavigationView
    decreases visits.len(),
{
    if visits.len() == 0 {
        start
    } else {
        after_visits(start, visits.drop_last()).visited(visits.last())
    }
}

/// A page is built after a run of visits when it was built before it or was
/// visited in it.
proof fn lemma_built_after(start: NavigationView, visits: Seq<int>, idx: int)
    requires
        start.built.len() == PAGE_COUNT,
        0 <= idx < PAGE_COUNT,
    ensures
        after_visits(start, visits).built.len() == PAGE_COUNT,
        after_visits(start, visits).built[idx] <==> start.built[idx] || visits.contains(idx),
    decreases visits.len(),
{
    if visits.len() > 0 {
        let front = visits.drop_last();
        lemma_built_after(start, front, idx);
        if front.contains(idx) {
            let k = choose|k: int| 0 <= k < front.len() && front[k] == idx;
            assert(visits[k] == idx);
        }
        if visits.contains(idx) {
            let k = choose|k: int| 0 <= k < visits.len() && visits[k] == idx;
            if k < front.len() {
                assert(front[k] == idx);
            }
        }
        assert(visits[visits.len() - 1] == visits.last());
    }
}

/// A page is built on its first visit and on no other; the home page, which a
/// new window comes with, is never built again.
pub proof fn pages_are_built_on_their_first_visit(visits: Seq<int>, idx: int)
    requires
        0 <= idx < PAGE_COUNT,
    ensures
        after_visits(first_sight(), visits).visit(idx) == (Visit::Show {
            page: sidebar()[idx],
            build: idx != 0 && !visits.contains(idx),
        }),
{
    lemma_built_after(first_sight(), visits, idx);
}

/// A visit to a place that exists selects it, one to a place that does not
/// changes nothing, and the page that is selected is always built.
pub proof fn the_selected_page_is_built(visits: Seq<int>)
    ensures
        ({
            let now = after_visits(first_sight(), visits);
            0 <= now.active < PAGE_COUNT && now.built.len() == PAGE_COUNT
                && now.built[now.active] && (visits.len() > 0 ==> if 0 <= visits.last()
                < PAGE_COUNT {
                now.active == visits.last()
            } else {
                now == after_visits(first_sight(), visits.drop_last())
            })
        }),
    decreases visits.len(),
{
    if visits.len() > 0 {
        the_selected_page_is_built(visits.drop_last());
    }
}

/// Up undoes Down and Down undoes Up, except at the end where the first of
/// them does not move.
pub proof fn up_and_down_are_opposites(active: int)
    requires
        0 <= active < PAGE_COUNT,
    ensures
        active < PAGE_COUNT - 1 ==> key_target(
            key_target(active, NavKey::Down)->0,
            NavKey::Up,
        ) == Some(active),
        active > 0 ==> key_target(key_target(active, NavKey::Up)->0, NavKey::Down) == Some(active),
        key_target(PAGE_COUNT - 1, NavKey::Down) == Some(PAGE_COUNT - 1),
        key_target(0, NavKey::Up) == Some(0int),
{
}

/// The place that a key pressed `n` times leads to.
pub open spec fn after_keys(active: int, key: NavKey, n: nat) -> int
    decreases n,
{
    if n == 0 {
        active
    } else {
        match key_target(after_keys(active, key, (n - 1) as nat), key) {
            Some(idx) => idx,
            None => active,
        }
    }
}

/// The two keys reach every place: each press moves by one, and pressing on at
/// an end stays there.
pub proof fn the_keys_reach_every_page(active: int, n: nat)
    requires
        0 <= active < PAGE_COUNT,
    ensures
        after_keys(active, NavKey::Down, n) == if active + n < PAGE_COUNT {
            active + n
        } else {
            PAGE_COUNT - 1
        },
        after_keys(active, NavKey::Up, n) == if active - n > 0 {
            active - n
        } else {
            0
        },
    decreases n,
{
    if n > 0 {
        the_keys_reach_every_page(active, (n - 1) as nat);
    }
}

/// The space before a label of the sidebar, in pixels.
pub const NAV_LABEL_START_MARGIN: i32 = 15;

/// The space after the widest label.
pub const NAV_LABEL_END_PADDING: i32 = 20;

/// The sidebar is never narrower than this.
pub const NAV_SIDEBAR_MIN_WIDTH: i32 = 170;

/// The largest of some widths; nothing has width zero.
pub open spec fn widest(widths: Seq<i32>) -> int
    decreases widths.len(),
{
    if widths.len() == 0 {
        0
    } else if widths.len() == 1 {
        widths[0] as int
    } else if widest(widths.drop_last()) > widths.last() {
        widest(widths.drop_last())
    } else {
        widths.last() as int
    }
}

/// The width of the sidebar for the measured widths of its labels.
pub open spec fn sidebar_width(widths: Seq<i32>) -> int {
    let wanted = widest(widths) + NAV_LABEL_START_MARGIN + NAV_LABEL_END_PADDING;
    if wanted > NAV_SIDEBAR_MIN_WIDTH {
        wanted
    } else {
        NAV_SIDEBAR_MIN_WIDTH as int
    }
}

/// The width that gives every label of the sidebar the room its text needs.
pub fn nav_sidebar_width(widths: &Vec<i32>) -> (width: i32)
    requires
        forall|i: int|
            0 <= i < widths@.len() ==> #[trigger] widths@[i] + NAV_LABEL_START_MARGIN
                + NAV_LABEL_END_PADDING <= i32::MAX,
    ensures
        width == sidebar_width(widths@),
{
    let mut largest: i32 = 0;
    let mut i: usize = 0;
    assert(widths@.take(0) =~= Seq::<i32>::empty());
    while i < widths.len()
        invariant
            i <= widths.len(),
            largest == widest(widths@.take(i as int)),
            largest + NAV_LABEL_START_MARGIN + NAV_LABEL_END_PADDING <= i32::MAX,
            forall|k: int|
                0 <= k < widths@.len() ==> #[trigger] widths@[k] + NAV_LABEL_START_MARGIN
                    + NAV_LABEL_END_PADDING <= i32::MAX,
        decreases widths.len() - i,
    {
        assert(widths@.take(i + 1).drop_last() =~= widths@.take(i as int));
        let width: i32 = widths[i];
        if i == 0 || largest <= width {
            largest = width;
        }
        i = i + 1;
    }
    assert(widths@.take(widths.len() as int) =~= widths@);
    let wanted: i32 = largest + NAV_LABEL_START_MARGIN + NAV_LABEL_END_PADDING;
    if wanted > NAV_SIDEBAR_MIN_WIDTH {
        wanted
    } else {
        NAV_SIDEBAR_MIN_WIDTH
    }
}

/// The widest of some labels is one of them and none is wider.
proof fn lemma_widest(widths: Seq<i32>)
    requires
        widths.len() > 0,
    ensures
        forall|i: int| 0 <= i < widths.len() ==> widths[i] <= widest(widths),
        exists|i: int| 0 <= i < widths.len() && widths[i] == widest(widths),
    decreases widths.len(),
{
    if widths.len() == 1 {
        assert(widths[0] == widest(widths));
    } else {
        let front = widths.drop_last();
        lemma_widest(front);
        assert(forall|i: int| 0 <= i < front.len() ==> front[i] == widths[i]);
        let k = choose|i: int| 0 <= i < front.len() && front[i] == widest(front);
        assert(widths[k] == widest(front));
        assert(widths[widths.len() - 1] == widths.last());
    }
}

/// Every label fits between its margins, the sidebar keeps its least width,
/// and it is no wider than the widest label or that least width asks.
pub proof fn every_label_fits(widths: Seq<i32>)
    ensures
        forall|i: int|
            0 <= i < widths.len() ==> #[trigger] widths[i] + NAV_LABEL_START_MARGIN
                + NAV_LABEL_END_PADDING <= sidebar_width(widths),
        sidebar_width(widths) >= NAV_SIDEBAR_MIN_WIDTH,
        sidebar_width(widths) == NAV_SIDEBAR_MIN_WIDTH || exists|i: int|
            0 <= i < widths.len() && #[trigger] widths[i] + NAV_LABEL_START_MARGIN
                + NAV_LABEL_END_PADDING == sidebar_width(widths),
{
    if widths.len() > 0 {
        lemma_widest(widths);
    }
}

/// A visit builds the page exactly when it has not been built, marks that page
/// and no other as built, and selects it. Keys other than Up and Down lead
/// nowhere.
pub proof fn a_visit_touches_one_page(before: NavigationView, idx: int, other: int)
    requires
        before.built.len() == PAGE_COUNT,
        0 <= idx < PAGE_COUNT,
        0 <= other < PAGE_COUNT,
    ensures
        before.visit(idx) matches Visit::Show { page, build } && place(page) == idx && build
            == !before.built[idx],
        before.visited(idx).active == idx,
        before.visited(idx).built.len() == PAGE_COUNT,
        before.visited(idx).built[other] == (other == idx || before.built[other]),
        key_target(idx, NavKey::Other) is None,
{
}

/// A visit to a place that does not exist is ignored and changes nothing.
pub proof fn no_such_place(before: NavigationView, idx: int)
    requires
        idx < 0 || idx >= PAGE_COUNT,
    ensures
        before.visit(idx) == Visit::Ignored,
        before.visited(idx) == before,
{
}

/// The temperatures are drawn anew exactly while their page is the selected one
/// of a window that is shown.
pub proof fn temperatures_only_while_looked_at(now: NavigationView, window_visible: bool)
    requires
        0 <= now.active < PAGE_COUNT,
    ensures
        now.shows_temperatures(window_visible) <==> window_visible && sidebar()[now.active]
            == Page::Temperatures,
{
}

} // verus!
