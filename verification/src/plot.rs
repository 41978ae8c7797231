//! What a bar chart of the groups' capacities shows.
//!
//! Drawing is left to the caller: this module picks the groups to plot and
//! works out the frame of the chart.

use crate::models::rvtools::{Datacenter, DatacenterView, MIB_PER_TIB};
use crate::text::{join_texts, joined};
use vstd::prelude::*;

verus! {

/// The frame of a bar chart: one bar per capacity.
#[derive(Debug, PartialEq, Eq)]
pub struct Chart {
    /// How many bars there are: the horizontal axis runs from 0 to this.
    pub item_count: usize,
    /// The highest bar, in MiB: the vertical axis runs from 0 to this.
    pub max_value: u128,
    /// The label of the horizontal axis: the names of the sites, in order,
    /// with a comma and a blank between neighbours.
    pub x_label: String,
    /// The bars, in MiB.
    pub bars: Vec<u128>,
}

/// The mathematical value of a [`Chart`].
pub struct ChartView {
    pub item_count: usize,
    pub max_value: u128,
    pub x_label: Seq<char>,
    pub bars: Seq<u128>,
}

impl DeepView for Chart {
    type V = ChartView;

    open spec fn deep_view(&self) -> ChartView {
        ChartView {
            item_count: self.item_count,
            max_value: self.max_value,
            x_label: self.x_label@,
            bars: self.bars@,
        }
    }
}

impl View for Chart {
    type V = ChartView;

    open spec fn view(&self) -> ChartView {
        self.deep_view()
    }
}

/// The group is plotted: its capacity is more than one TiB.
pub open spec fn is_plotted() -> spec_fn(DatacenterView) -> bool {
    |group: DatacenterView| group.capacity > MIB_PER_TIB
}

/// The groups that are plotted, in their given order.
pub open spec fn plotted(groups: Seq<DatacenterView>) -> Seq<DatacenterView> {
    groups.filter(is_plotted())
}

/// The capacities of the groups, in order.
pub open spec fn capacities_of(groups: Seq<DatacenterView>) -> Seq<u128> {
    Seq::new(groups.len(), |i: int| groups[i].capacity)
}

/// The site names of the groups, in order.
pub open spec fn names_of(groups: Seq<DatacenterView>) -> Seq<Seq<char>> {
    Seq::new(groups.len(), |i: int| groups[i].name)
}

/// `highest` is the greatest of the values.
pub open spec fn is_highest(highest: u128, values: Seq<u128>) -> bool {
    values.contains(highest) && forall|i: int| 0 <= i < values.len() ==> values[i] <= highest
}

/// The capacities and the site names of the groups that are plotted: those
/// of more than one TiB.
pub fn plot_series(groups: &Vec<Datacenter>) -> (series: (Vec<u128>, Vec<String>))
    ensures
        series.0@ == capacities_of(plotted(groups.deep_view())),
        series.1.deep_view() == names_of(plotted(groups.deep_view())),
{
    let ghost view = groups.deep_view();
    let mut data: Vec<u128> = Vec::new();
    let mut site_names: Vec<String> = Vec::new();
    let mut i: usize = 0;
    proof {
        reveal(Seq::filter);
        assert(view.take(0).filter(is_plotted()) =~= Seq::<DatacenterView>::empty());
        assert(data@ =~= capacities_of(plotted(view.take(0))));
        assert(site_names.deep_view() =~= names_of(plotted(view.take(0))));
    }
    while i < groups.len()
        invariant
            i <= groups.len(),
            view == groups.deep_view(),
            data@ == capacities_of(plotted(view.take(i as int))),
            site_names.deep_view() == names_of(plotted(view.take(i as int))),
        decreases groups.len() - i,
    {
        let group = &groups[i];
        let ghost names_before = site_names.deep_view();
        proof {
            assert(group.deep_view() == view[i as int]);
            assert(view.take(i + 1) =~= view.take(i as int).push(view[i as int]));
            view.take(i as int).lemma_filter_push(view[i as int], is_plotted());
        }
        if group.capacity > MIB_PER_TIB {
            data.push(group.capacity);
            let name = group.name.clone();
            site_names.push(name);
            proof {
                assert(site_names.deep_view() =~= names_before.push(name@));
                assert(data@ =~= capacities_of(plotted(view.take(i + 1))));
                assert(site_names.deep_view() =~= names_of(plotted(view.take(i + 1))));
            }
        }
        i = i + 1;
    }
    proof {
        assert(view.take(i as int) =~= view);
    }
    (data, site_names)
}

/// The frame of the chart for the given bars and site names. Without bars
/// there is no chart.
pub fn plot_data(data: Vec<u128>, site_names: Vec<String>) -> (chart: Option<Chart>)
    ensures
        match chart {
            Some(chart) => {
                &&& data.len() > 0
                &&& chart.item_count == data.len()
                &&& is_highest(chart.max_value, data@)
                &&& chart.x_label@ == joined(site_names.deep_view(), ", "@)
                &&& chart.bars@ == data@
            },
            None => data.len() == 0,
        },
{
    if data.len() == 0 {
        return None;
    }
    let mut max_value: u128 = data[0];
    let mut i: usize = 1;
    while i < data.len()
        invariant
            1 <= i <= data.len(),
            data@.contains(max_value),
            forall|k: int| 0 <= k < i ==> data[k] <= max_value,
        decreases data.len() - i,
    {
        if data[i] > max_value {
            max_value = data[i];
        }
        i = i + 1;
    }
    let x_label = join_texts(&site_names, ", ");
    Some(Chart { item_count: data.len(), max_value, x_label, bars: data })
}

} // verus!
