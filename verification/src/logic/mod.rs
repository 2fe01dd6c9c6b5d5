//! Scripts attached to items, and the parts that run them.
use std::sync::Arc;
use vstd::prelude::*;

use crate::manifest::ManifestSection;

use self::error::LogicError;
use self::loader::ModuleResolver;
use self::module::{Code, LogicModule};
use self::module_url::{builtin_main, ModuleUrl};
use self::proxy::{LogicInst, RuntimeEnd};
use self::share::share;
use self::worker::{Worker, WorkerImpl, WorkerInputEvent};

pub mod bundle;
pub mod channel;
pub mod error;
pub mod expose;
pub mod func;
pub mod instance;
pub mod loader;
pub mod module;
pub mod module_url;
pub mod proxy;
pub mod runtime;
mod share;
pub mod startup;
pub mod time;
pub mod worker;

verus! {

/// A set of APIs that a script can use, by the number under which it is
/// registered.
#[derive(Debug, Clone, Copy, PartialEq, Eq, Structural)]
pub struct FeatureId {
    pub id: u64,
}

/// What a runtime is made from.
#[derive(Debug)]
pub struct LogicArgs {
    /// The script's only module.
    pub source: LogicModule,
    /// The address under which that module is served.
    pub main_url: ModuleUrl,
    /// The features that the script can use.
    pub features: Vec<FeatureId>,
}

impl LogicArgs {
    /// Whether these are the arguments for the given code, served at the given
    /// address, without features.
    pub open spec fn plain(self, code: Code, main_url: Seq<char>) -> bool {
        &&& self.source.code() == code
        &&& self.main_url@ == main_url
        &&& self.features@ == Seq::<FeatureId>::empty()
    }
}

/// A script attached to an item.
#[derive(Debug)]
pub struct Logic {
    args: Arc<LogicArgs>,
}

impl Logic {
    pub closed spec fn spec_args(self) -> LogicArgs {
        *self.args
    }

    pub fn new(source: LogicModule, main_url: ModuleUrl, features: Vec<FeatureId>) -> (logic: Logic)
        ensures
            logic.spec_args() == (LogicArgs { source, main_url, features }),
    {
        Logic { args: Arc::new(LogicArgs { source, main_url, features }) }
    }

    /// What the script's runtime is made from.
    pub fn args(&self) -> (args: &LogicArgs)
        ensures
            *args == self.spec_args(),
    {
        &self.args
    }
}

/// The connection to a runtime: it carries events between the runtime and the
/// item that its script is attached to.
#[derive(Debug)]
pub struct RuntimeConnection {
    /// The item's end.
    pub inst: LogicInst,
}

impl RuntimeConnection {
    /// Whether this is a new connection, whose other end is `end`.
    pub open spec fn reaches(self, end: RuntimeEnd) -> bool {
        self.inst.fresh() && self.inst.faces(end)
    }
}

/// The logic section of a manifest: a script of one module.
#[derive(Debug)]
pub struct LogicManifest {
    pub main: LogicModule,
}

impl ManifestSection for LogicManifest {
    type LiveInstance = Logic;

    open spec fn ready(&self) -> bool {
        true
    }

    /// The script has the section's module, served at the built-in address, and
    /// no features.
    open spec fn lives_as(&self, live: Logic) -> bool {
        live.spec_args().plain(self.main.code(), builtin_main())
    }

    fn spawn(&self) -> (live: Logic)
        ensures
            live.spec_args().source.code() == self.main.code(),
            live.spec_args().main_url@ == "builtin://main"@,
            live.spec_args().features@.len() == 0,
            match self.main {
                LogicModule::Direct { src } => live.spec_args().source is Direct
                    && live.spec_args().source->src@ == src@,
                LogicModule::Wasm { bytes } => live.spec_args().source is Wasm
                    && live.spec_args().source->bytes@ == bytes@,
            },
    {
        Logic::new(self.main.clone(), self.main.direct_url(), Vec::new())
    }
}

/// What loading a script comes to.
pub struct Loading {
    /// The backend of a worker that was set up for the script and that is to be
    /// given a thread.
    pub started: Option<WorkerImpl>,
    pub connection: Result<RuntimeConnection, LogicError>,
}

/// Manages workers.
#[derive(Debug)]
pub struct Manager {
    workers: Vec<Worker>,
    module_resolver: Arc<ModuleResolver>,
}

impl Manager {
    pub closed spec fn workers(self) -> Seq<Worker> {
        self.workers@
    }

    pub closed spec fn resolver(self) -> ModuleResolver {
        *self.module_resolver
    }

    /// Whether there is one worker at most.
    pub open spec fn one_worker_at_most(self) -> bool {
        self.workers().len() <= 1
    }

    /// Whether `after` is this manager once it was told to load a script, and
    /// `loading` is what came of it: the first worker, which is set up where there
    /// is none, was asked once to start the script's runtime, and nothing else has
    /// changed.
    pub open spec fn loads(self, logic: Logic, loading: Loading, after: Manager) -> bool {
        let request = first_offered(after.workers()).last();
        &&& after.resolver() == self.resolver()
        &&& after.workers().len() == if self.workers().len() == 0 {
            1
        } else {
            self.workers().len()
        }
        &&& loading.started is Some <==> self.workers().len() == 0
        &&& loading.started is Some ==> loading.started->Some_0.serves(
            after.workers()[0],
            self.resolver(),
        )
        &&& self.workers().len() > 0 ==> after.workers()[0].line() == self.workers()[0].line()
        &&& self.workers().len() > 0 && self.workers()[0].in_line() ==> after.workers()[0].in_line()
        &&& forall|i: int|
            0 < i < self.workers().len() ==> (#[trigger] after.workers()[i]) == self.workers()[i]
        &&& first_offered(after.workers()) == first_offered(self.workers()).push(request)
        &&& request.args() == logic.spec_args()
        &&& request.end().fresh()
        &&& match loading.connection {
            Ok(connection) => {
                &&& first_requests(after.workers()) == first_requests(self.workers()).push(request)
                &&& connection.reaches(request.end())
            },
            Err(error) => {
                &&& first_requests(after.workers()) == first_requests(self.workers())
                &&& error == LogicError::ChannelClosed
            },
        }
    }

    /// Has the first worker start the runtime of a script. There is such a
    /// worker from the first script on.
    pub fn load_runtime(&mut self, logic: &Logic) -> (loading: Loading)
        ensures
            old(self).loads(*logic, loading, *final(self)),
            final(self).workers().len() > 0,
            final(self).workers()[0].offered().len() == if old(self).workers().len() == 0 {
                1
            } else {
                old(self).workers()[0].offered().len() + 1
            },
            final(self).workers()[0].offered().last() matches WorkerInputEvent::Create(args, end)
                && *args == logic.spec_args(),
            loading.connection is Ok ==> final(self).workers()[0].requests().len() > 0
                && final(self).workers()[0].requests().last()
                == final(self).workers()[0].offered().last(),
            old(self).one_worker_at_most() ==> final(self).one_worker_at_most(),
    {
        let mut started: Option<WorkerImpl> = None;
        if self.workers.len() == 0 {
            let (worker, backend) = Worker::new(&self.module_resolver);
            self.workers.push(worker);
            started = Some(backend);
        }
        let connection = self.workers[0].create_runtime(share(&logic.args));
        Loading { started, connection }
    }
}

/// The requests that the first of `workers` was sent; none where there is no
/// worker.
pub open spec fn first_requests(workers: Seq<Worker>) -> Seq<WorkerInputEvent> {
    if workers.len() == 0 {
        Seq::empty()
    } else {
        workers[0].requests()
    }
}

/// The requests that were meant for the first of `workers`, and also those that
/// it was not sent; none where there is no worker.
pub open spec fn first_offered(workers: Seq<Worker>) -> Seq<WorkerInputEvent> {
    if workers.len() == 0 {
        Seq::empty()
    } else {
        workers[0].offered()
    }
}

/// However many scripts a new manager is told to load, one worker, set up with
/// the manager's resolver at the first of them, is asked to start their runtimes,
/// one after the other in the order of the scripts, and is asked for nothing
/// else. Where every request got there, these are the requests that it was sent.
/// `managers` are the states before, between and after the loads.
pub proof fn one_worker_is_asked_for_all_scripts(
    managers: Seq<Manager>,
    logics: Seq<Logic>,
    loadings: Seq<Loading>,
)
    requires
        managers.len() == logics.len() + 1,
        loadings.len() == logics.len(),
        managers[0].workers() == Seq::<Worker>::empty(),
        forall|i: int|
            0 <= i < logics.len() ==> managers[i].loads(
                #[trigger] logics[i],
                loadings[i],
                managers[i + 1],
            ),
    ensures
        forall|i: int|
            0 < i < managers.len() ==> (#[trigger] managers[i]).workers().len() == 1
                && managers[i].resolver() == managers[0].resolver(),
        forall|i: int|
            0 <= i < loadings.len() ==> ((#[trigger] loadings[i]).started is Some <==> i == 0),
        first_offered(managers.last().workers()).len() == logics.len(),
        forall|i: int|
            0 <= i < logics.len() ==> (#[trigger] first_offered(
                managers.last().workers(),
            )[i]).args() == logics[i].spec_args(),
        (forall|i: int|
            0 <= i < loadings.len() ==> (#[trigger] loadings[i]).connection is Ok)
            ==> first_requests(managers.last().workers()) == first_offered(
            managers.last().workers(),
        ),
    decreases logics.len(),
{
    if logics.len() > 0 {
        let before = managers.drop_last();
        let logics_before = logics.drop_last();
        let loadings_before = loadings.drop_last();
        let last = logics.len() - 1;
        assert forall|i: int| 0 <= i < logics_before.len() implies before[i].loads(
            #[trigger] logics_before[i],
            loadings_before[i],
            before[i + 1],
        ) by {
            assert(logics_before[i] == logics[i]);
        }
        one_worker_is_asked_for_all_scripts(before, logics_before, loadings_before);
        assert(managers[last].loads(logics[last], loadings[last], managers[last + 1]));
        assert(before.last() == managers[last]);
        assert forall|i: int| 0 < i < managers.len() implies (
        #[trigger] managers[i]).workers().len() == 1 && managers[i].resolver()
            == managers[0].resolver() by {
            if i < before.len() {
                assert(before[i] == managers[i]);
            } else if last > 0 {
                assert(before[last] == managers[last]);
            }
        }
        assert forall|i: int| 0 <= i < loadings.len() implies ((
        #[trigger] loadings[i]).started is Some <==> i == 0) by {
            if i < last {
                assert(loadings_before[i] == loadings[i]);
            } else if last > 0 {
                assert(before[last] == managers[last]);
            }
        }
        let asked_before = first_offered(managers[last].workers());
        let asked = first_offered(managers.last().workers());
        assert forall|i: int| 0 <= i < logics.len() implies (#[trigger] first_offered(
            managers.last().workers(),
        )[i]).args() == logics[i].spec_args() by {
            if i < last {
                assert(asked[i] == asked_before[i]);
                assert(logics_before[i] == logics[i]);
            }
        }
        if forall|i: int| 0 <= i < loadings.len() ==> (#[trigger] loadings[i]).connection is Ok {
            assert forall|i: int| 0 <= i < loadings_before.len() implies (
            #[trigger] loadings_before[i]).connection is Ok by {
                assert(loadings_before[i] == loadings[i]);
            }
            assert(loadings[last].connection is Ok);
        }
    }
}

impl Default for Manager {
    /// A manager without workers.
    fn default() -> (manager: Self)
        ensures
            manager.workers() == Seq::<Worker>::empty(),
            manager.one_worker_at_most(),
            manager.resolver()@ == Set::<Seq<char>>::empty(),
    {
        Manager { workers: Vec::new(), module_resolver: Arc::new(ModuleResolver::default()) }
    }
}

/// The script that a section of one module spawns has that module, in full and in
/// its own language, at the built-in address, and no features. Sections with
/// different modules spawn different scripts.
pub proof fn a_section_lives_as_its_module(
    section: LogicManifest,
    live: Logic,
    other: LogicManifest,
    other_live: Logic,
)
    requires
        section.lives_as(live),
        other.lives_as(other_live),
    ensures
        section.ready(),
        live.spec_args().source.code() == section.main.code(),
        match section.main {
            LogicModule::Direct { src } => live.spec_args().source.code() == Code::JavaScript(src@),
            LogicModule::Wasm { bytes } => live.spec_args().source.code() == Code::Wasm(bytes@),
        },
        live.spec_args().main_url@ == "builtin://main"@,
        live.spec_args().features@.len() == 0,
        live.spec_args().source.code() == other_live.spec_args().source.code()
            <==> section.main.code() == other.main.code(),
{
}

/// Loading a script asks the first worker, and no other, once for the script's own
/// runtime. The request, whether it gets there or not, carries what the script is
/// made from and an end that has not been used, and the connection that comes back
/// where it got there is the one to that end.
pub proof fn a_load_asks_the_first_worker_for_the_script(
    before: Manager,
    logic: Logic,
    loading: Loading,
    after: Manager,
    i: int,
)
    requires
        before.loads(logic, loading, after),
    ensures
        after.resolver() == before.resolver(),
        before.workers().len() > 0 ==> after.workers().len() == before.workers().len(),
        before.workers().len() == 0 ==> after.workers().len() == 1,
        0 < i < before.workers().len() ==> after.workers()[i] == before.workers()[i],
        before.workers().len() > 0 ==> loading.started is None && after.workers()[0].offered()
            == before.workers()[0].offered().push(after.workers()[0].offered().last()),
        before.workers().len() == 0 ==> {
            &&& loading.started is Some
            &&& after.workers()[0].offered().len() == 1
            &&& loading.started->Some_0.line() == after.workers()[0].line()
            &&& loading.started->Some_0.resolver() == before.resolver()
            &&& loading.started->Some_0.runtimes().len() == 0
            &&& loading.started->Some_0.accepted().len() == 0
        },
        after.workers()[0].offered().last() matches WorkerInputEvent::Create(args, end) && {
            &&& *args == logic.spec_args()
            &&& end.taken().len() == 0
            &&& end.offered().len() == 0
            &&& !end.is_closed()
            &&& loading.connection is Ok ==> {
                &&& loading.connection->Ok_0.inst.line_in() == end.line_in()
                &&& loading.connection->Ok_0.inst.line_out() == end.line_out()
                &&& loading.connection->Ok_0.inst.offered().len() == 0
                &&& loading.connection->Ok_0.inst.received().len() == 0
            }
        },
        loading.connection is Ok ==> after.workers()[0].requests().last()
            == after.workers()[0].offered().last(),
        loading.connection is Ok && before.workers().len() > 0 ==> after.workers()[0].requests()
            == before.workers()[0].requests().push(after.workers()[0].requests().last()),
        loading.connection is Ok && before.workers().len() == 0
            ==> after.workers()[0].requests().len() == 1,
        loading.connection is Err && before.workers().len() > 0 ==> after.workers()[0].requests()
            == before.workers()[0].requests(),
        loading.connection is Err && before.workers().len() == 0
            ==> after.workers()[0].requests().len() == 0,
        loading.connection is Err ==> loading.connection->Err_0 == LogicError::ChannelClosed,
{
}

} // verus!
