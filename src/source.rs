use vstd::prelude::*;
use crate::command_line::{
    SeekOffset, arg_views, stream_resolver_args, stream_resolver_args_spec, transcoder_args,
    transcoder_args_spec,
};
use crate::error::SourceError;
use crate::metadata::Metadata;

verus! {

/// Where a restartable source stands. Pipelines are named by number; the
/// processes behind a number belong to whoever drives the source.
#[derive(Clone, Debug, PartialEq, Eq)]
pub enum SourceState {
    /// No process and no metadata.
    Uninitialized,
    /// Metadata fetched by a throwaway resolver run; no pipeline yet.
    MetadataOnly(Metadata),
    /// A pipeline is streaming.
    Live { pipeline: u64, metadata: Metadata },
    /// The last construction or restart failed.
    Failed(SourceError),
}

/// What the driver must do to restart: stop the retired pipeline, if any,
/// then spawn the new one with these arguments.
#[derive(Clone, Debug, PartialEq, Eq)]
pub struct SpawnOrder {
    pub retire: Option<u64>,
    pub pipeline: u64,
    pub resolver_args: Vec<String>,
    pub transcoder_args: Vec<String>,
}

/// A spawn order as values: pipeline numbers and argument texts.
pub ghost struct OrderModel {
    pub retire: Option<u64>,
    pub pipeline: u64,
    pub resolver_args: Seq<Seq<char>>,
    pub transcoder_args: Seq<Seq<char>>,
}

impl View for SpawnOrder {
    type V = OrderModel;

    open spec fn view(&self) -> OrderModel {
        OrderModel {
            retire: self.retire,
            pipeline: self.pipeline,
            resolver_args: arg_views(self.resolver_args@),
            transcoder_args: arg_views(self.transcoder_args@),
        }
    }
}

/// A media source that can be torn down and respawned at any offset.
#[derive(Clone, Debug, PartialEq, Eq)]
pub struct RestartableSource {
    pub locator: String,
    pub state: SourceState,
    /// Number of the most recently ordered pipeline.
    pub generation: u64,
    /// A pipeline ordered by `restart` whose outcome is not in yet.
    pub pending: Option<u64>,
}

impl RestartableSource {
    pub open spec fn wf(self) -> bool {
        &&& (self.pending matches Some(p) ==> p == self.generation && self.state is Uninitialized)
        &&& (self.state matches SourceState::Live { pipeline, .. } ==> pipeline == self.generation)
    }

    /// The one pipeline this source owns: the live one, or the one ordered.
    pub open spec fn held(self) -> Option<u64> {
        match self.state {
            SourceState::Live { pipeline, .. } => Some(pipeline),
            _ => self.pending,
        }
    }

    pub open spec fn next_pipeline(self) -> u64 {
        if self.generation == u64::MAX {
            0
        } else {
            (self.generation + 1) as u64
        }
    }

    /// The order that a restart at `seek` hands out.
    pub open spec fn order_spec(self, seek: Option<SeekOffset>) -> OrderModel {
        OrderModel {
            retire: self.held(),
            pipeline: self.next_pipeline(),
            resolver_args: stream_resolver_args_spec(self.locator@),
            transcoder_args: transcoder_args_spec(seek),
        }
    }

    /// The source once a restart has been ordered.
    pub open spec fn restarted(self) -> RestartableSource {
        RestartableSource {
            locator: self.locator,
            state: SourceState::Uninitialized,
            generation: self.next_pipeline(),
            pending: Some(self.next_pipeline()),
        }
    }

    /// The source once the ordered pipeline has started, or failed to.
    pub open spec fn finished(self, outcome: Result<Metadata, SourceError>) -> RestartableSource {
        RestartableSource {
            locator: self.locator,
            state: match outcome {
                Ok(m) => SourceState::Live { pipeline: self.generation, metadata: m },
                Err(e) => SourceState::Failed(e),
            },
            generation: self.generation,
            pending: None,
        }
    }

    pub open spec fn metadata_spec(self) -> Option<Metadata> {
        match self.state {
            SourceState::MetadataOnly(m) => Some(m),
            SourceState::Live { metadata, .. } => Some(metadata),
            _ => None,
        }
    }

    /// A source that has done nothing yet.
    pub fn new(locator: String) -> (r: RestartableSource)
        ensures
            r.wf(),
            r.locator == locator,
            r.state is Uninitialized,
            r.pending is None,
            r.held() is None,
    {
        RestartableSource { locator, state: SourceState::Uninitialized, generation: 0, pending: None }
    }

    /// A lazily built source, from the result of a metadata-only resolver run:
    /// it holds that metadata, or the failure.
    pub fn construct_lazy(locator: String, fetched: Result<Metadata, SourceError>) -> (r:
        RestartableSource)
        ensures
            r.wf(),
            r.locator == locator,
            r.held() is None,
            r.state == match fetched {
                Ok(m) => SourceState::MetadataOnly(m),
                Err(e) => SourceState::Failed(e),
            },
    {
        let state = match fetched {
            Ok(m) => SourceState::MetadataOnly(m),
            Err(e) => SourceState::Failed(e),
        };
        RestartableSource { locator, state, generation: 0, pending: None }
    }

    /// Orders a restart at `seek`: the held pipeline, if any, is retired, and a
    /// new one is ordered from the same locator. Until the outcome is in, the
    /// source holds no metadata and no stream.
    pub fn restart(&mut self, seek: Option<SeekOffset>) -> (r: SpawnOrder)
        requires
            old(self).wf(),
        ensures
            *final(self) == old(self).restarted(),
            final(self).wf(),
            r@ == old(self).order_spec(seek),
            final(self).held() == Some(r.pipeline),
            old(self).held() != Some(r.pipeline),
    {
        let retire = match &self.state {
            SourceState::Live { pipeline, .. } => Some(*pipeline),
            _ => self.pending,
        };
        let pipeline = self.generation.wrapping_add(1);
        assert(pipeline == self.next_pipeline());
        let resolver_args = stream_resolver_args(self.locator.as_str());
        let transcoder_args = transcoder_args(seek);
        self.state = SourceState::Uninitialized;
        self.generation = pipeline;
        self.pending = Some(pipeline);
        SpawnOrder { retire, pipeline, resolver_args, transcoder_args }
    }

    /// Records the outcome of the ordered spawn: live with its fresh metadata,
    /// or failed.
    pub fn finish_restart(&mut self, outcome: Result<Metadata, SourceError>)
        requires
            old(self).wf(),
            old(self).pending is Some,
        ensures
            *final(self) == old(self).finished(outcome),
            final(self).wf(),
            final(self).held() == match outcome {
                Ok(_) => old(self).pending,
                Err(_) => None,
            },
    {
        let pipeline = self.generation;
        self.state = match outcome {
            Ok(m) => SourceState::Live { pipeline, metadata: m },
            Err(e) => SourceState::Failed(e),
        };
        self.pending = None;
    }

    /// Whether a spawn has been ordered and its outcome is not in yet.
    pub fn is_spawn_pending(&self) -> (r: bool)
        ensures
            r == self.pending is Some,
    {
        self.pending.is_some()
    }

    /// The metadata held: only with metadata fetched or a live pipeline.
    pub fn metadata(&self) -> (r: Result<&Metadata, SourceError>)
        ensures
            match self.metadata_spec() {
                Some(m) => r matches Ok(x) && *x == m,
                None => r matches Err(SourceError::NoMetadata),
            },
    {
        match &self.state {
            SourceState::MetadataOnly(m) => Ok(m),
            SourceState::Live { metadata, .. } => Ok(metadata),
            _ => Err(SourceError::NoMetadata),
        }
    }

    /// The pipeline to read audio from: only a live source has one.
    pub fn audio_pipeline(&self) -> (r: Result<u64, SourceError>)
        ensures
            match self.state {
                SourceState::Live { pipeline, .. } => r == Ok::<u64, SourceError>(pipeline),
                _ => r matches Err(SourceError::NotLive),
            },
    {
        match &self.state {
            SourceState::Live { pipeline, .. } => Ok(*pipeline),
            _ => Err(SourceError::NotLive),
        }
    }

    /// The pipeline owned by this source, live or ordered.
    pub fn held_pipeline(&self) -> (r: Option<u64>)
        ensures
            r == self.held(),
    {
        match &self.state {
            SourceState::Live { pipeline, .. } => Some(*pipeline),
            _ => self.pending,
        }
    }
}

/// Two restarts in a row, the first without an offset and the second at `t`,
/// whether or not the first spawn's success came in between: the second order
/// retires exactly the pipeline that the first one ordered, spawns another, and
/// the source then owns that one alone.
pub proof fn lemma_restart_retires_previous(
    s: RestartableSource,
    t: SeekOffset,
    between: Option<Metadata>,
)
    requires
        s.wf(),
    ensures
        ({
            let o1 = s.order_spec(None);
            let s1 = s.restarted();
            let s2 = match between {
                Some(m) => s1.finished(Ok(m)),
                None => s1,
            };
            let o2 = s2.order_spec(Some(t));
            &&& o1.retire == s.held()
            &&& s2.wf()
            &&& s2.held() == Some(o1.pipeline)
            &&& o2.retire == Some(o1.pipeline)
            &&& o2.pipeline != o1.pipeline
            &&& s2.restarted().held() == Some(o2.pipeline)
            &&& o1.transcoder_args == transcoder_args_spec(None)
            &&& o2.transcoder_args == transcoder_args_spec(Some(t))
        }),
{
}

/// Whatever the source held before, a restart drops its metadata, and a
/// successful spawn leaves exactly the metadata of that spawn.
pub proof fn lemma_metadata_from_latest_spawn(s: RestartableSource, m: Metadata)
    requires
        s.wf(),
    ensures
        s.restarted().metadata_spec() is None,
        s.restarted().finished(Ok(m)).metadata_spec() == Some(m),
{
}

} // verus!
