//! Stages and the ordered pipelines built from them.

use crate::color::maps_each;
use crate::ProcessingImage;
use kolor::{ColorSpace, Vec3};
use vstd::prelude::*;

verus! {

/// A unit of work that rewrites an image in place, one pixel at a time.
///
/// A stage may move the image into another space for its arithmetic, but the
/// image leaves in the space and with the dimensions it came in, and every
/// pixel that leaves is related to the pixel that entered in the same position
/// and to nothing else.
pub trait ProcessingStage: Send + Sync {
    /// Whether the stage may turn the pixel `before`, read in `space`, into
    /// `after`. A stage that says nothing about itself admits everything.
    open spec fn admits(&self, space: ColorSpace, before: Vec3, after: Vec3) -> bool {
        true
    }

    fn process(&self, image: &mut ProcessingImage)
        ensures
            final(image)@.same_shape(old(image)@),
            maps_each(
                |p: Vec3, q: Vec3| self.admits(old(image)@.space, p, q),
                old(image)@.pixels,
                final(image)@.pixels,
            ),
    ;
}

/// A stage of any kind, boxed so that stages of different kinds can stand in
/// one list.
pub struct Stage(pub Box<dyn ProcessingStage>);

impl Stage {
    /// Whether the boxed stage may turn `before` into `after`.
    pub open spec fn admits(self, space: ColorSpace, before: Vec3, after: Vec3) -> bool {
        self.0.admits(space, before, after)
    }
}

/// Whether running `stages` one after another, first to last, may turn the
/// pixel `before` into `after`.
pub open spec fn runs_to(stages: Seq<Stage>, space: ColorSpace, before: Vec3, after: Vec3) -> bool
    decreases stages.len(),
{
    if stages.len() == 0 {
        before == after
    } else {
        exists|between: Vec3|
            runs_to(stages.drop_last(), space, before, between) && #[trigger] stages.last().admits(
                space,
                between,
                after,
            )
    }
}

/// Running one list of stages and then another is running the two lists
/// joined: what a pixel becomes depends on the order of the stages and on
/// nothing else about how they are grouped.
pub proof fn lemma_runs_to_joined(
    first: Seq<Stage>,
    second: Seq<Stage>,
    space: ColorSpace,
    before: Vec3,
    after: Vec3,
)
    ensures
        runs_to(first + second, space, before, after) <==> exists|between: Vec3|
            runs_to(first, space, before, between) && #[trigger] runs_to(
                second,
                space,
                between,
                after,
            ),
    decreases second.len(),
{
    let joined = first + second;
    if second.len() == 0 {
        assert(joined =~= first);
        if runs_to(first, space, before, after) {
            assert(runs_to(second, space, after, after));
        }
    } else {
        let shorter = second.drop_last();
        assert(joined.drop_last() =~= first + shorter);
        assert(joined.last() == second.last());
        if runs_to(joined, space, before, after) {
            let late = choose|late: Vec3|
                runs_to(joined.drop_last(), space, before, late) && #[trigger] joined.last().admits(
                    space,
                    late,
                    after,
                );
            lemma_runs_to_joined(first, shorter, space, before, late);
            let between = choose|between: Vec3|
                runs_to(first, space, before, between) && #[trigger] runs_to(
                    shorter,
                    space,
                    between,
                    late,
                );
            assert(second.last().admits(space, late, after));
            assert(runs_to(second, space, between, after));
        }
        if exists|between: Vec3|
            runs_to(first, space, before, between) && #[trigger] runs_to(
                second,
                space,
                between,
                after,
            ) {
            let between = choose|between: Vec3|
                runs_to(first, space, before, between) && #[trigger] runs_to(
                    second,
                    space,
                    between,
                    after,
                );
            let late = choose|late: Vec3|
                runs_to(shorter, space, between, late) && #[trigger] second.last().admits(
                    space,
                    late,
                    after,
                );
            lemma_runs_to_joined(first, shorter, space, before, late);
            assert(runs_to(shorter, space, between, late));
            assert(runs_to(joined.drop_last(), space, before, late));
            assert(joined.last().admits(space, late, after));
        }
    }
}

/// An ordered list of stages, run first to last.
pub struct Pipeline {
    stages: Vec<Stage>,
}

impl View for Pipeline {
    type V = Seq<Stage>;

    closed spec fn view(&self) -> Seq<Stage> {
        self.stages@
    }
}

impl Pipeline {
    /// A pipeline without stages.
    pub fn new() -> (pipeline: Self)
        ensures
            pipeline@ == Seq::<Stage>::empty(),
    {
        Pipeline { stages: Vec::new() }
    }

    /// The pipeline with `stage` added after the stages it already has.
    pub fn add_stage(self, stage: Stage) -> (pipeline: Self)
        ensures
            pipeline@ == self@.push(stage),
            pipeline@.drop_last() == self@,
            pipeline@.last() == stage,
    {
        let mut stages = self.stages;
        let ghost earlier = stages@;
        stages.push(stage);
        assert(stages@.drop_last() =~= earlier);
        Pipeline { stages }
    }

    /// The number of stages.
    pub fn len(&self) -> (count: usize)
        ensures
            count == self@.len(),
    {
        self.stages.len()
    }

    /// Runs every stage on the image, in the order in which the stages were
    /// added. A stage sees the image only after the stage before it has
    /// finished with every pixel.
    pub fn process(&self, image: &mut ProcessingImage)
        ensures
            final(image)@.same_shape(old(image)@),
            maps_each(
                |p: Vec3, q: Vec3| runs_to(self@, old(image)@.space, p, q),
                old(image)@.pixels,
                final(image)@.pixels,
            ),
    {
        let ghost space = image@.space;
        let mut k: usize = 0;
        while k < self.stages.len()
            invariant
                k <= self.stages@.len(),
                space == old(image)@.space,
                image@.same_shape(old(image)@),
                forall|i: int|
                    0 <= i < old(image)@.pixels.len() ==> runs_to(
                        self.stages@.take(k as int),
                        space,
                        old(image)@.pixels[i],
                        #[trigger] image@.pixels[i],
                    ),
            decreases self.stages@.len() - k,
        {
            let ghost entered = image@.pixels;
            self.stages[k].0.process(image);
            proof {
                let done = self.stages@.take(k + 1);
                assert(done.drop_last() =~= self.stages@.take(k as int));
                assert(done.last() == self.stages@[k as int]);
                assert forall|i: int| 0 <= i < old(image)@.pixels.len() implies runs_to(
                    done,
                    space,
                    old(image)@.pixels[i],
                    #[trigger] image@.pixels[i],
                ) by {
                    assert(runs_to(done.drop_last(), space, old(image)@.pixels[i], entered[i]));
                    assert(done.last().admits(space, entered[i], image@.pixels[i]));
                }
            }
            k = k + 1;
        }
        proof {
            assert(self.stages@.take(k as int) =~= self.stages@);
        }
    }
}

/// A pipeline is itself a stage: it admits what its stages admit in turn.
impl ProcessingStage for Pipeline {
    open spec fn admits(&self, space: ColorSpace, before: Vec3, after: Vec3) -> bool {
        runs_to(self@, space, before, after)
    }

    fn process(&self, image: &mut ProcessingImage) {
        Pipeline::process(self, image)
    }
}

} // verus!
