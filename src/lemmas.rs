use vstd::prelude::*;

use crate::reconciler::{
    pane_renames,
    renamable,
    tick_renames,
    timer_commands,
    CommandView,
    InputMode,
    PaneInfo,
    State,
    TabInfo,
};
use crate::text::{derived_name, is_space, skip_spaces};

verus! {

proof fn lemma_pane_renames_target(position: nat, panes: Seq<PaneInfo>)
    ensures
        forall|k: int|
            0 <= k < pane_renames(position, panes).len() ==> (#[trigger] pane_renames(
                position,
                panes,
            )[k] matches CommandView::RenameTab { position: p, .. } && p == position),
    decreases panes.len(),
{
    if panes.len() > 0 {
        lemma_pane_renames_target(position, panes.drop_last());
    }
}

proof fn lemma_tick_renames_target(
    panes: Seq<(usize, Vec<PaneInfo>)>,
    tabs: Seq<TabInfo>,
    prefix: Seq<char>,
)
    ensures
        forall|k: int|
            0 <= k < tick_renames(panes, tabs, prefix).len() ==> (#[trigger] tick_renames(
                panes,
                tabs,
                prefix,
            )[k] matches CommandView::RenameTab { position: p, .. } && renamable(
                tabs,
                prefix,
                p - 1,
            )),
    decreases panes.len(),
{
    if panes.len() > 0 {
        let (i, tab_panes) = panes.last();
        lemma_tick_renames_target(panes.drop_last(), tabs, prefix);
        lemma_pane_renames_target((i + 1) as nat, tab_panes@);
        let rest = tick_renames(panes.drop_last(), tabs, prefix);
        let here = pane_renames((i + 1) as nat, tab_panes@);
        if renamable(tabs, prefix, i as int) {
            assert forall|k: int| rest.len() <= k < rest.len() + here.len() implies (rest
                + here)[k] == here[k - rest.len()] by {}
        }
    }
}

proof fn lemma_timer_renames_target(s: State)
    ensures
        forall|k: int|
            1 <= k < timer_commands(s).len() ==> (#[trigger] timer_commands(s)[k] matches CommandView::RenameTab {
                position: p,
                ..
            } && renamable(s.tabs@, s.tab_keep_prefix@, p - 1)),
{
    let r = tick_renames(s.panes@, s.tabs@, s.tab_keep_prefix@);
    lemma_tick_renames_target(s.panes@, s.tabs@, s.tab_keep_prefix@);
    if s.mode != InputMode::RenameTab {
        assert forall|k: int| 1 <= k < 1 + r.len() implies (seq![CommandView::SetTimeout]
            + r)[k] == r[k - 1] by {}
    }
}

/// On a timer event, a tab that the pane snapshot names but the tab snapshot
/// lacks is never renamed.
pub proof fn absent_tab_is_not_renamed(s: State, i: int)
    requires
        i >= s.tabs@.len(),
    ensures
        forall|k: int|
            0 <= k < timer_commands(s).len() ==> !(#[trigger] timer_commands(s)[k] matches CommandView::RenameTab {
                position: p,
                ..
            } && p == i + 1),
{
    lemma_timer_renames_target(s);
}

/// On a timer event, a tab whose name starts with the keep-prefix is never
/// renamed.
pub proof fn pinned_tab_is_not_renamed(s: State, i: int)
    requires
        0 <= i < s.tabs@.len(),
        s.tab_keep_prefix@.is_prefix_of(s.tabs@[i].name@),
    ensures
        forall|k: int|
            0 <= k < timer_commands(s).len() ==> !(#[trigger] timer_commands(s)[k] matches CommandView::RenameTab {
                position: p,
                ..
            } && p == i + 1),
{
    lemma_timer_renames_target(s);
}

/// While a tab is being renamed by hand, a timer event only arms the timer
/// again.
pub proof fn no_renames_while_renaming_by_hand(s: State)
    requires
        s.mode == InputMode::RenameTab,
    ensures
        timer_commands(s) == seq![CommandView::SetTimeout],
{
}

/// Every timer event arms the timer again exactly once, as its first command;
/// all that follows are renames.
pub proof fn timer_is_rearmed_once(s: State)
    ensures
        timer_commands(s).len() >= 1,
        timer_commands(s)[0] == CommandView::SetTimeout,
        forall|k: int|
            1 <= k < timer_commands(s).len() ==> #[trigger] timer_commands(s)[k] is RenameTab,
{
    lemma_timer_renames_target(s);
}

proof fn lemma_skip_spaces_end(s: Seq<char>, i: int)
    requires
        0 <= i <= s.len(),
    ensures
        skip_spaces(s, i) >= s.len() <==> (forall|k: int| i <= k < s.len() ==> is_space(s[k])),
    decreases s.len() - i,
{
    if i < s.len() {
        lemma_skip_spaces_end(s, i + 1);
    }
}

/// A title gives no name exactly when it is empty or all spaces.
pub proof fn blank_title_gives_no_name(title: Seq<char>)
    ensures
        derived_name(title) is None <==> (forall|k: int|
            0 <= k < title.len() ==> is_space(title[k])),
{
    lemma_skip_spaces_end(title, 0);
}

proof fn lemma_pane_renames_concat(position: nat, a: Seq<PaneInfo>, b: Seq<PaneInfo>)
    ensures
        pane_renames(position, a + b) == pane_renames(position, a) + pane_renames(position, b),
    decreases b.len(),
{
    if b.len() == 0 {
        assert(a + b =~= a);
        assert(pane_renames(position, a) + pane_renames(position, b) =~= pane_renames(
            position,
            a,
        ));
    } else {
        assert((a + b).drop_last() =~= a + b.drop_last());
        lemma_pane_renames_concat(position, a, b.drop_last());
        let p = b.last();
        if p.is_focused && derived_name(p.title@) is Some {
            let c = CommandView::RenameTab { position, name: derived_name(p.title@)->0 };
            assert((pane_renames(position, a) + pane_renames(position, b.drop_last())).push(c)
                =~= pane_renames(position, a) + pane_renames(position, b.drop_last()).push(c));
        }
    }
}

/// A pane whose title is empty or all spaces adds no rename for its tab: the
/// renames are those of the other panes.
pub proof fn blank_pane_is_not_renamed(position: nat, panes: Seq<PaneInfo>, j: int)
    requires
        0 <= j < panes.len(),
        forall|k: int| 0 <= k < panes[j].title@.len() ==> is_space(panes[j].title@[k]),
    ensures
        pane_renames(position, panes) == pane_renames(position, panes.remove(j)),
{
    blank_title_gives_no_name(panes[j].title@);
    let front = panes.subrange(0, j);
    let back = panes.subrange(j + 1, panes.len() as int);
    assert(panes =~= front + (seq![panes[j]] + back));
    assert(panes.remove(j) =~= front + back);
    lemma_pane_renames_concat(position, seq![panes[j]], back);
    lemma_pane_renames_concat(position, front, seq![panes[j]] + back);
    lemma_pane_renames_concat(position, front, back);
    assert(seq![panes[j]].drop_last() =~= Seq::<PaneInfo>::empty());
    assert(seq![panes[j]].last() == panes[j]);
    assert(pane_renames(position, Seq::<PaneInfo>::empty()) == Seq::<CommandView>::empty());
    assert(pane_renames(position, seq![panes[j]]) =~= Seq::<CommandView>::empty());
    assert(pane_renames(position, seq![panes[j]]) + pane_renames(position, back)
        =~= pane_renames(position, back));
}

} // verus!
