//! A demonstration front end for the 3.27 inch display: bring the display
//! up, then clear it, show one frame and put it to sleep.
use vstd::prelude::*;
use crate::epd3in27::{
    clear_frame_steps, display_frame_steps, init_steps, sleep_steps, update_frame_steps,
    Epd3in27, EpdState, RefreshLut, DEFAULT_BACKGROUND_COLOR,
};
use crate::interface::{Plan, Step};

verus! {

/// The steps of each plan in a list of plans.
pub open spec fn plans_view(v: Seq<Plan>) -> Seq<Seq<Step>> {
    v.map_values(|p: Plan| p@)
}

/// The 3.27 inch display together with what it shows.
pub struct Epd3in27wb {
    pub epd: Epd3in27,
}

impl Epd3in27wb {
    /// A front end over a freshly created driver, with the driver's
    /// initialisation sequence.
    pub fn new() -> (r: (Epd3in27wb, Plan))
        ensures
            r.0.epd@ == (EpdState { color: DEFAULT_BACKGROUND_COLOR, refresh: RefreshLut::Full }),
            r.1@ == init_steps(RefreshLut::Full),
    {
        let (epd, plan) = Epd3in27::new();
        (Epd3in27wb { epd }, plan)
    }

    /// Shows the frame `buffer`: clears the screen, sends the frame,
    /// refreshes the panel and puts the display to sleep.  The four plans
    /// are independent: a failure in one does not stop the next.
    pub fn work(&mut self, buffer: &[u8]) -> (plans: Vec<Plan>)
        ensures
            final(self).epd@ == old(self).epd@,
            plans_view(plans@) == seq![
                clear_frame_steps(old(self).epd@.color),
                update_frame_steps(buffer@),
                display_frame_steps(),
                sleep_steps(),
            ],
    {
        let mut plans: Vec<Plan> = Vec::new();
        let clear = self.epd.clear_frame();
        plans.push(clear);
        let update = self.epd.update_frame(buffer);
        plans.push(update);
        let display = self.epd.display_frame();
        plans.push(display);
        let sleep = self.epd.sleep();
        plans.push(sleep);
        assert(plans_view(plans@) =~= seq![
            clear_frame_steps(old(self).epd@.color),
            update_frame_steps(buffer@),
            display_frame_steps(),
            sleep_steps(),
        ]);
        plans
    }
}

} // verus!
