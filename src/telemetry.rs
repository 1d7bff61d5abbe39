use vstd::prelude::*;

verus! {

/// One telemetry observation. The timestamp counts microseconds since the
/// worker started; the three readings are carried as given.
#[derive(Clone, Copy, Debug, PartialEq)]
pub struct MotorStatus<V> {
    pub timestamp_us: u64,
    pub angle: V,
    pub velocity: V,
    pub torque: V,
}

/// Which reading of a sample is plotted.
#[derive(Clone, Copy, Debug, PartialEq, Eq, Structural)]
pub enum PlotType {
    Angle,
    Velocity,
    Torque,
}

/// The reading of `s` that `p` selects.
pub open spec fn projection<V>(s: MotorStatus<V>, p: PlotType) -> V {
    match p {
        PlotType::Angle => s.angle,
        PlotType::Velocity => s.velocity,
        PlotType::Torque => s.torque,
    }
}

/// Whether every value in `ts` is strictly smaller than each later one.
pub open spec fn strictly_increasing(ts: Seq<u64>) -> bool {
    forall|i: int, j: int| 0 <= i < j < ts.len() ==> ts[i] < ts[j]
}

/// The timestamps of a run of samples.
pub open spec fn sample_times<V>(samples: Seq<MotorStatus<V>>) -> Seq<u64> {
    samples.map_values(|s: MotorStatus<V>| s.timestamp_us)
}

/// The timestamps of a run of plot points.
pub open spec fn point_times<V>(points: Seq<(u64, V)>) -> Seq<u64> {
    points.map_values(|q: (u64, V)| q.0)
}

/// The plot point that `s` contributes under `p`.
pub open spec fn point_of<V>(s: MotorStatus<V>, p: PlotType) -> (u64, V) {
    (s.timestamp_us, projection(s, p))
}

/// The plot points of a run of samples under `p`, in the same order.
pub open spec fn points_of<V>(samples: Seq<MotorStatus<V>>, p: PlotType) -> Seq<(u64, V)> {
    samples.map_values(|s: MotorStatus<V>| point_of(s, p))
}

/// Returns the reading of `s` selected by `p`.
pub fn project<V: Copy>(s: &MotorStatus<V>, p: PlotType) -> (r: V)
    ensures
        r == projection(*s, p),
{
    match p {
        PlotType::Angle => s.angle,
        PlotType::Velocity => s.velocity,
        PlotType::Torque => s.torque,
    }
}

/// The abstract state of a plot buffer: the selected reading, whether capture
/// is armed, and the captured points in arrival order.
pub ghost struct PlotView<V> {
    pub plot_type: PlotType,
    pub plotting: bool,
    pub points: Seq<(u64, V)>,
}

impl<V> PlotView<V> {
    /// After a run of samples is drained: appended when armed, dropped when not.
    pub open spec fn ingested(self, samples: Seq<MotorStatus<V>>) -> PlotView<V> {
        PlotView {
            points: if self.plotting {
                self.points + points_of(samples, self.plot_type)
            } else {
                self.points
            },
            ..self
        }
    }

    /// After `p` is selected: a change of reading empties the points.
    pub open spec fn selected(self, p: PlotType) -> PlotView<V> {
        PlotView {
            plot_type: p,
            points: if p != self.plot_type {
                Seq::empty()
            } else {
                self.points
            },
            ..self
        }
    }

    /// After capture is toggled: arming empties the points, disarming keeps them.
    pub open spec fn toggled(self) -> PlotView<V> {
        PlotView {
            plotting: !self.plotting,
            points: if !self.plotting {
                Seq::empty()
            } else {
                self.points
            },
            ..self
        }
    }
}

/// Accumulates the plotted series from the drained status stream.
pub struct PlotBuffer<V> {
    plot_type: PlotType,
    plotting: bool,
    points: Vec<(u64, V)>,
}

impl<V> View for PlotBuffer<V> {
    type V = PlotView<V>;

    closed spec fn view(&self) -> PlotView<V> {
        PlotView { plot_type: self.plot_type, plotting: self.plotting, points: self.points@ }
    }
}

impl<V: Copy> PlotBuffer<V> {
    /// An empty buffer plotting the angle, with capture disarmed.
    pub fn new() -> (r: Self)
        ensures
            r@ == (PlotView::<V> {
                plot_type: PlotType::Angle,
                plotting: false,
                points: Seq::empty(),
            }),
    {
        PlotBuffer { plot_type: PlotType::Angle, plotting: false, points: Vec::new() }
    }

    /// Consumes the samples drained on one refresh, in order.
    pub fn ingest(&mut self, samples: &Vec<MotorStatus<V>>)
        ensures
            final(self)@ == old(self)@.ingested(samples@),
    {
        if !self.plotting {
            return;
        }
        let ghost start = self.points@;
        let n = samples.len();
        let mut i: usize = 0;
        while i < n
            invariant
                n == samples@.len(),
                0 <= i <= n,
                self.plotting,
                self.plot_type == old(self).plot_type,
                self.points@ == start + points_of(samples@.subrange(0, i as int), self.plot_type),
            decreases n - i,
        {
            let s = &samples[i];
            let value = project(s, self.plot_type);
            self.points.push((s.timestamp_us, value));
            proof {
                let p = self.plot_type;
                assert(samples@.subrange(0, i + 1) =~= samples@.subrange(0, i as int).push(samples@[i as int]));
                assert(points_of(samples@.subrange(0, i + 1), p) =~= points_of(samples@.subrange(0, i as int), p).push(point_of(samples@[i as int], p)));
            }
            i += 1;
        }
        proof {
            assert(samples@.subrange(0, n as int) =~= samples@);
        }
        assert(self.points@ =~= old(self)@.ingested(samples@).points);
    }

    /// Selects the reading to plot; a different reading starts a fresh series.
    pub fn select(&mut self, p: PlotType)
        ensures
            final(self)@ == old(self)@.selected(p),
    {
        if p != self.plot_type {
            self.points.clear();
        }
        self.plot_type = p;
        assert(self.points@ =~= old(self)@.selected(p).points);
    }

    /// Arms or disarms capture; arming starts a fresh series.
    pub fn toggle_capture(&mut self)
        ensures
            final(self)@ == old(self)@.toggled(),
    {
        if !self.plotting {
            self.points.clear();
        }
        self.plotting = !self.plotting;
        assert(self.points@ =~= old(self)@.toggled().points);
    }

    /// The reading being plotted.
    pub fn plot_type(&self) -> (r: PlotType)
        ensures
            r == self@.plot_type,
    {
        self.plot_type
    }

    /// Whether capture is armed.
    pub fn is_plotting(&self) -> (r: bool)
        ensures
            r == self@.plotting,
    {
        self.plotting
    }

    /// The captured points, oldest first.
    pub fn points(&self) -> (r: &Vec<(u64, V)>)
        ensures
            r@ == self@.points,
    {
        &self.points
    }
}

/// Switching to another reading leaves the buffer empty, so the first points
/// captured afterwards are exactly those of the new reading.
pub proof fn lemma_switch_clears<V>(v: PlotView<V>, p: PlotType, samples: Seq<MotorStatus<V>>)
    requires
        p != v.plot_type,
    ensures
        v.selected(p).points.len() == 0,
        v.selected(p).plot_type == p,
        v.plotting ==> v.selected(p).ingested(samples).points == points_of(samples, p),
{
    assert(Seq::<(u64, V)>::empty() + points_of(samples, p) =~= points_of(samples, p));
}

/// Disarming keeps the captured series; arming again empties it before any
/// further sample is taken.
pub proof fn lemma_rearm_clears<V>(v: PlotView<V>)
    requires
        v.plotting,
    ensures
        !v.toggled().plotting,
        v.toggled().points == v.points,
        v.toggled().toggled().plotting,
        v.toggled().toggled().points.len() == 0,
{
}

/// While capture is disarmed, drained samples leave the buffer as it was.
pub proof fn lemma_disarmed_discards<V>(v: PlotView<V>, samples: Seq<MotorStatus<V>>)
    requires
        !v.plotting,
    ensures
        v.ingested(samples) == v,
{
}

/// A stream whose timestamps strictly increase, and start after the last
/// captured point, keeps the captured points strictly ordered in time.
pub proof fn lemma_ingest_keeps_time_order<V>(v: PlotView<V>, samples: Seq<MotorStatus<V>>)
    requires
        strictly_increasing(point_times(v.points)),
        strictly_increasing(sample_times(samples)),
        v.points.len() > 0 && samples.len() > 0 ==> v.points.last().0 < samples[0].timestamp_us,
    ensures
        strictly_increasing(point_times(v.ingested(samples).points)),
{
    if v.plotting {
        let a = v.points;
        let b = points_of(samples, v.plot_type);
        let t = point_times(a + b);
        assert forall|i: int, j: int| 0 <= i < j < t.len() implies t[i] < t[j] by {
            if j < a.len() {
                assert(t[i] == point_times(a)[i]);
                assert(t[j] == point_times(a)[j]);
            } else if i >= a.len() {
                assert(t[i] == sample_times(samples)[i - a.len()]);
                assert(t[j] == sample_times(samples)[j - a.len()]);
            } else {
                assert(t[i] == point_times(a)[i]);
                assert(t[j] == sample_times(samples)[j - a.len()]);
                assert(point_times(a)[i] <= point_times(a)[a.len() - 1]);
                assert(sample_times(samples)[0] <= sample_times(samples)[j - a.len()]);
            }
        }
    }
}

} // verus!
