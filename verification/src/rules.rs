//! Thread roles and the built-in table that recognises them by name.
//!
//! The table holds thread-name patterns that occur across many apps (engine
//! internals, system components, common libraries), each with the core class
//! it should run on. A name is placed by the highest-priority rule whose
//! pattern it matches; among rules of equal priority the first one wins.
//! Exact names have priority 100, wildcard patterns 50, broad substring
//! patterns 20.

use vstd::prelude::*;
use crate::glob::glob_match;
use crate::glob::glob_spec;
use crate::glob::matches_from;
use crate::glob::class_items_end;
use crate::glob::class_items_hit;
use crate::glob::lemma_literal_mismatch;
use crate::glob::lemma_pair_class_rejects;
use crate::glob::is_literal;
use crate::glob::law_literal_pattern_is_equality;
use crate::glob::law_literal_prefix_star;
use crate::glob::law_star_literal_suffix;
use crate::glob::law_star_literal_contains;
use crate::glob::law_fixed_length_pattern;
use crate::text::chars_of;
use crate::text::chars_equal;
use crate::text::starts_with_chars;
use crate::text::has_prefix;

verus! {

/// Which cores a thread is bound to.
#[derive(Debug, Clone, Copy, PartialEq, Eq, Structural)]
pub enum CoreTarget {
    /// The prime core(s): the strongest single core.
    Prime,
    /// The big cores.
    Big,
    /// Big and prime cores together.
    BigAndPrime,
    /// Little and big cores together, never prime.
    LittleAndBig,
    /// The little (efficiency) cores.
    Little,
    /// Leave the thread to the system scheduler.
    Default,
}

/// One rule of the table.
#[derive(Debug, Clone, Copy)]
pub struct ThreadRule {
    /// Thread-name pattern: `*`, `?` and `[...]` classes are supported.
    pub pattern: &'static str,
    /// Where a matching thread goes.
    pub target: CoreTarget,
    /// Higher wins; exact names rank above wildcards.
    pub priority: u8,
}

/// A rule as a mathematical value.
pub struct RuleSpec {
    pub pattern: Seq<char>,
    pub target: CoreTarget,
    pub priority: u8,
}

pub open spec fn rule_spec(pattern: Seq<char>, target: CoreTarget, priority: u8) -> RuleSpec {
    RuleSpec { pattern, target, priority }
}

impl ThreadRule {
    pub open spec fn spec(self) -> RuleSpec {
        rule_spec(self.pattern@, self.target, self.priority)
    }

    /// A rule for an exact thread name.
    fn exact(pattern: &'static str, target: CoreTarget) -> (r: ThreadRule)
        ensures
            r.spec() == rule_spec(pattern@, target, 100),
    {
        ThreadRule { pattern, target, priority: 100 }
    }

    /// A rule for a wildcard pattern.
    fn wildcard(pattern: &'static str, target: CoreTarget) -> (r: ThreadRule)
        ensures
            r.spec() == rule_spec(pattern@, target, 50),
    {
        ThreadRule { pattern, target, priority: 50 }
    }

    /// A rule for a broad pattern that only applies when nothing more
    /// specific does.
    fn low(pattern: &'static str, target: CoreTarget) -> (r: ThreadRule)
        ensures
            r.spec() == rule_spec(pattern@, target, 20),
    {
        ThreadRule { pattern, target, priority: 20 }
    }
}

/// The built-in rule table, in order.
pub open spec fn builtin_rules() -> Seq<RuleSpec> {
    seq![
        // Prime: the single most critical render / game main thread.
        rule_spec("RenderThread"@, CoreTarget::Prime, 100),
        rule_spec("RenderEngine"@, CoreTarget::Prime, 100),
        rule_spec("AndroidRender"@, CoreTarget::Prime, 100),
        rule_spec("InputDispatcher"@, CoreTarget::Prime, 100),
        rule_spec("main"@, CoreTarget::Prime, 100),
        rule_spec("MainThread"@, CoreTarget::Prime, 100),
        rule_spec("VCMainThread"@, CoreTarget::Prime, 100),
        rule_spec("AnimationThread"@, CoreTarget::Prime, 100),
        rule_spec("1.ui"@, CoreTarget::Prime, 100),
        rule_spec("2.ui"@, CoreTarget::Prime, 100),
        rule_spec("UnityMain"@, CoreTarget::Prime, 100),
        rule_spec("UnityGfxDeviceW"@, CoreTarget::Prime, 100),
        rule_spec("GameThread"@, CoreTarget::Prime, 100),
        rule_spec("UEGameThread"@, CoreTarget::Prime, 100),
        rule_spec("RenderingThread"@, CoreTarget::Prime, 100),
        rule_spec("Mainloop"@, CoreTarget::Prime, 100),
        rule_spec("CrRendererMain"@, CoreTarget::Prime, 100),
        rule_spec("Chrome_InProcGp"@, CoreTarget::Prime, 100),
        rule_spec("VulkanRenderMan"@, CoreTarget::Prime, 100),
        rule_spec("GcamViewfinder"@, CoreTarget::Prime, 100),
        rule_spec("MiniRainbowMain"@, CoreTarget::Prime, 100),
        // Big + Prime: render, animation and pool helpers that are heavy and latency sensitive.
        rule_spec("GLThread*"@, CoreTarget::BigAndPrime, 50),
        rule_spec("Chrome_InProcRe"@, CoreTarget::BigAndPrime, 100),
        rule_spec("1.raster"@, CoreTarget::BigAndPrime, 100),
        rule_spec("?.raster"@, CoreTarget::BigAndPrime, 50),
        rule_spec("?.ui"@, CoreTarget::BigAndPrime, 50),
        rule_spec("InsetsAnimation"@, CoreTarget::BigAndPrime, 100),
        rule_spec("*[Aa]nim*"@, CoreTarget::BigAndPrime, 20),
        rule_spec("*[Pp]ool*"@, CoreTarget::BigAndPrime, 20),
        rule_spec("glide*"@, CoreTarget::BigAndPrime, 50),
        rule_spec("glide-*"@, CoreTarget::BigAndPrime, 50),
        rule_spec("AsyncTask*"@, CoreTarget::BigAndPrime, 50),
        rule_spec("mqt_*"@, CoreTarget::BigAndPrime, 50),
        rule_spec("JavaBridge"@, CoreTarget::BigAndPrime, 100),
        rule_spec("IL2CPP*"@, CoreTarget::BigAndPrime, 50),
        rule_spec("arch_disk_*"@, CoreTarget::BigAndPrime, 50),
        rule_spec("arch_disk*"@, CoreTarget::BigAndPrime, 50),
        rule_spec("Game[0-9]*"@, CoreTarget::BigAndPrime, 50),
        rule_spec("*Dispatcher"@, CoreTarget::BigAndPrime, 50),
        rule_spec("files_database*"@, CoreTarget::BigAndPrime, 50),
        rule_spec("searchQueue"@, CoreTarget::BigAndPrime, 100),
        rule_spec("stageQueue*"@, CoreTarget::BigAndPrime, 50),
        rule_spec("fileUploadQueue"@, CoreTarget::BigAndPrime, 100),
        rule_spec("VDecod*"@, CoreTarget::BigAndPrime, 50),
        rule_spec("Lynx_JS"@, CoreTarget::BigAndPrime, 100),
        rule_spec("Socket Thread"@, CoreTarget::BigAndPrime, 100),
        rule_spec("RxCachedThreadS"@, CoreTarget::BigAndPrime, 100),
        rule_spec("IOThread*"@, CoreTarget::BigAndPrime, 50),
        rule_spec("AndroidUI"@, CoreTarget::BigAndPrime, 100),
        rule_spec("Gecko"@, CoreTarget::BigAndPrime, 100),
        rule_spec("Web Content"@, CoreTarget::BigAndPrime, 100),
        // Big: worker pools, IO, network, GPU helpers, Binder, decoding.
        rule_spec("mali-*"@, CoreTarget::Big, 50),
        rule_spec("RenderThread*"@, CoreTarget::Big, 50),
        rule_spec("hwuiTask*"@, CoreTarget::Big, 50),
        rule_spec("hwui*"@, CoreTarget::Big, 50),
        rule_spec("Compositor"@, CoreTarget::Big, 100),
        rule_spec("UnityGfx*"@, CoreTarget::Big, 50),
        rule_spec("VizCompositor"@, CoreTarget::Big, 50),
        rule_spec("Job.[Ww]orker*"@, CoreTarget::Big, 50),
        rule_spec("UnityPreload"@, CoreTarget::Big, 100),
        rule_spec("UnityPreload*"@, CoreTarget::Big, 50),
        rule_spec("UnityMultiRende*"@, CoreTarget::Big, 50),
        rule_spec("RHIThread"@, CoreTarget::Big, 100),
        rule_spec("RHIThread*"@, CoreTarget::Big, 50),
        rule_spec("TaskGraph*"@, CoreTarget::Big, 50),
        rule_spec("ShaderCompiling"@, CoreTarget::Big, 100),
        rule_spec("PakMergeThread"@, CoreTarget::Big, 100),
        rule_spec("DartWorker*"@, CoreTarget::Big, 50),
        rule_spec("?.io"@, CoreTarget::Big, 50),
        rule_spec("Chrome_IOThread"@, CoreTarget::Big, 100),
        rule_spec("Chrome_ChildIOT"@, CoreTarget::Big, 100),
        rule_spec("NetworkService"@, CoreTarget::Big, 100),
        rule_spec("VizWebView"@, CoreTarget::Big, 100),
        rule_spec("ChromiumNet*"@, CoreTarget::Big, 50),
        rule_spec("IPC*"@, CoreTarget::Big, 50),
        rule_spec("IPDL*"@, CoreTarget::Big, 50),
        rule_spec("*[Bb]ackStage*"@, CoreTarget::Big, 20),
        rule_spec("Thread-*"@, CoreTarget::Big, 50),
        rule_spec("NativeThread*"@, CoreTarget::Big, 50),
        rule_spec("MainThread*"@, CoreTarget::Big, 50),
        rule_spec("*worker*"@, CoreTarget::Big, 20),
        rule_spec("*Worker*"@, CoreTarget::Big, 20),
        rule_spec("Worker Thread"@, CoreTarget::Big, 100),
        rule_spec("Task*"@, CoreTarget::Big, 50),
        rule_spec("JobThread*"@, CoreTarget::Big, 50),
        rule_spec("PoolThread*"@, CoreTarget::Big, 50),
        rule_spec("DispatchQueuePo"@, CoreTarget::Big, 100),
        rule_spec("io.worker*"@, CoreTarget::Big, 50),
        rule_spec("CoreThread"@, CoreTarget::Big, 100),
        rule_spec("Compute*"@, CoreTarget::Big, 50),
        rule_spec("Jit thread pool"@, CoreTarget::Big, 100),
        rule_spec("DefaultExecutor"@, CoreTarget::Big, 100),
        rule_spec("Binder:*"@, CoreTarget::Big, 50),
        rule_spec("binder:*"@, CoreTarget::Big, 50),
        rule_spec("HwBinder:*"@, CoreTarget::Big, 50),
        rule_spec("[Bb]inder:*"@, CoreTarget::Big, 50),
        rule_spec("*[Bb]inder*"@, CoreTarget::Big, 20),
        rule_spec("OkHttp*"@, CoreTarget::Big, 50),
        rule_spec("*[Hh]ttp*"@, CoreTarget::Big, 20),
        rule_spec("ExoPlayer:*"@, CoreTarget::Big, 50),
        rule_spec("beacon-thread-*"@, CoreTarget::Big, 50),
        rule_spec("MediaCodec*"@, CoreTarget::Big, 50),
        rule_spec("CodecLooper*"@, CoreTarget::Big, 50),
        rule_spec("storageQueue*"@, CoreTarget::Big, 50),
        rule_spec("mpv/*"@, CoreTarget::Big, 50),
        rule_spec("VOutle*"@, CoreTarget::Big, 50),
        rule_spec("AOutle*"@, CoreTarget::Big, 50),
        rule_spec("CRI*"@, CoreTarget::Big, 50),
        rule_spec("HeapTaskDaemon"@, CoreTarget::Big, 100),
        rule_spec("DefaultDispatch"@, CoreTarget::Big, 100),
        rule_spec("*Event*"@, CoreTarget::Big, 20),
        rule_spec("*TaskQueue*"@, CoreTarget::Big, 20),
        rule_spec("Shared_w*"@, CoreTarget::Big, 50),
        rule_spec("ThumbnailStorag"@, CoreTarget::Big, 100),
        rule_spec("JNISurfaceTextu"@, CoreTarget::Big, 100),
        rule_spec("MiniRenderThrea"@, CoreTarget::Big, 100),
        rule_spec("LogicThread"@, CoreTarget::Big, 100),
        rule_spec("GPM-DataThread"@, CoreTarget::Big, 100),
        rule_spec("looper_monitor"@, CoreTarget::Big, 100),
        rule_spec("APM_light-weigh"@, CoreTarget::Big, 100),
        rule_spec("Phenix-Schedule"@, CoreTarget::Big, 100),
        rule_spec("alsoft-mixer"@, CoreTarget::Big, 100),
        // Little + Big: general thread pools, audio mixing, background loading; never Prime.
        rule_spec("ThreadPoolForeg*"@, CoreTarget::LittleAndBig, 50),
        rule_spec("ThreadPoolServi*"@, CoreTarget::LittleAndBig, 50),
        rule_spec("ThreadPool*"@, CoreTarget::LittleAndBig, 50),
        rule_spec("pool-[0-9]*-thread*"@, CoreTarget::LittleAndBig, 50),
        rule_spec("#pool-[0-9]*-thread*"@, CoreTarget::LittleAndBig, 50),
        rule_spec("onPool-worker-*"@, CoreTarget::LittleAndBig, 50),
        rule_spec("rx-pool-*"@, CoreTarget::LittleAndBig, 50),
        rule_spec("cached-pool-*"@, CoreTarget::LittleAndBig, 50),
        rule_spec("pivotal-pool-*"@, CoreTarget::LittleAndBig, 50),
        rule_spec("vrpool-*"@, CoreTarget::LittleAndBig, 50),
        rule_spec("ledThreadPool-*"@, CoreTarget::LittleAndBig, 50),
        rule_spec("*ColdPool*"@, CoreTarget::LittleAndBig, 50),
        rule_spec("*HotPool*"@, CoreTarget::LittleAndBig, 50),
        rule_spec("HadesPool*"@, CoreTarget::LittleAndBig, 50),
        rule_spec("HadesLibPool*"@, CoreTarget::LittleAndBig, 50),
        rule_spec("*ThreadPool*"@, CoreTarget::LittleAndBig, 50),
        rule_spec("FMOD*"@, CoreTarget::LittleAndBig, 50),
        rule_spec("AudioTrack"@, CoreTarget::LittleAndBig, 100),
        rule_spec("SoundPool*"@, CoreTarget::LittleAndBig, 50),
        rule_spec("ijk_dash_pool_*"@, CoreTarget::LittleAndBig, 50),
        rule_spec("UnityChoreograp*"@, CoreTarget::LittleAndBig, 50),
        rule_spec("UnityChoreo*"@, CoreTarget::LittleAndBig, 50),
        rule_spec("*Loading*"@, CoreTarget::LittleAndBig, 20),
        rule_spec("Loading.*"@, CoreTarget::LittleAndBig, 50),
        rule_spec("FAsyncLoading*"@, CoreTarget::LittleAndBig, 50),
        rule_spec("CriManaDecode*"@, CoreTarget::LittleAndBig, 50),
        rule_spec("DownloadThreadP*"@, CoreTarget::LittleAndBig, 50),
        rule_spec("CallbackHndlr"@, CoreTarget::LittleAndBig, 100),
        rule_spec("IO*Thread*"@, CoreTarget::LittleAndBig, 50),
        // Little: background, logging, light audio work.
        rule_spec("*[Aa]udio*"@, CoreTarget::Little, 20),
        rule_spec("AudioThread"@, CoreTarget::Little, 100),
        rule_spec("SoundDecoder*"@, CoreTarget::Little, 50),
        rule_spec("decodeQueue*"@, CoreTarget::Little, 50),
        rule_spec("AILocalThread"@, CoreTarget::Little, 100),
        rule_spec("Apollo-*"@, CoreTarget::Little, 50),
        rule_spec("GC?Marker??"@, CoreTarget::Little, 50),
        rule_spec("[Bb][Gg]*"@, CoreTarget::Little, 50),
        rule_spec("LogAppendWork"@, CoreTarget::Little, 100),
        rule_spec("IO-*"@, CoreTarget::Little, 50),
    ]
}

/// The built-in rule table.
pub fn thread_rules() -> (res: Vec<ThreadRule>)
    ensures
        res@.len() == builtin_rules().len(),
        forall|i: int| 0 <= i < res@.len() ==> #[trigger] res@[i].spec() == builtin_rules()[i],
{
    let res = vec![
        // Prime: the single most critical render / game main thread.
        ThreadRule::exact("RenderThread", CoreTarget::Prime),
        ThreadRule::exact("RenderEngine", CoreTarget::Prime),
        ThreadRule::exact("AndroidRender", CoreTarget::Prime),
        ThreadRule::exact("InputDispatcher", CoreTarget::Prime),
        ThreadRule::exact("main", CoreTarget::Prime),
        ThreadRule::exact("MainThread", CoreTarget::Prime),
        ThreadRule::exact("VCMainThread", CoreTarget::Prime),
        ThreadRule::exact("AnimationThread", CoreTarget::Prime),
        ThreadRule::exact("1.ui", CoreTarget::Prime),
        ThreadRule::exact("2.ui", CoreTarget::Prime),
        ThreadRule::exact("UnityMain", CoreTarget::Prime),
        ThreadRule::exact("UnityGfxDeviceW", CoreTarget::Prime),
        ThreadRule::exact("GameThread", CoreTarget::Prime),
        ThreadRule::exact("UEGameThread", CoreTarget::Prime),
        ThreadRule::exact("RenderingThread", CoreTarget::Prime),
        ThreadRule::exact("Mainloop", CoreTarget::Prime),
        ThreadRule::exact("CrRendererMain", CoreTarget::Prime),
        ThreadRule::exact("Chrome_InProcGp", CoreTarget::Prime),
        ThreadRule::exact("VulkanRenderMan", CoreTarget::Prime),
        ThreadRule::exact("GcamViewfinder", CoreTarget::Prime),
        ThreadRule::exact("MiniRainbowMain", CoreTarget::Prime),
        // Big + Prime: render, animation and pool helpers that are heavy and latency sensitive.
        ThreadRule::wildcard("GLThread*", CoreTarget::BigAndPrime),
        ThreadRule::exact("Chrome_InProcRe", CoreTarget::BigAndPrime),
        ThreadRule::exact("1.raster", CoreTarget::BigAndPrime),
        ThreadRule::wildcard("?.raster", CoreTarget::BigAndPrime),
        ThreadRule::wildcard("?.ui", CoreTarget::BigAndPrime),
        ThreadRule::exact("InsetsAnimation", CoreTarget::BigAndPrime),
        ThreadRule::low("*[Aa]nim*", CoreTarget::BigAndPrime),
        ThreadRule::low("*[Pp]ool*", CoreTarget::BigAndPrime),
        ThreadRule::wildcard("glide*", CoreTarget::BigAndPrime),
        ThreadRule::wildcard("glide-*", CoreTarget::BigAndPrime),
        ThreadRule::wildcard("AsyncTask*", CoreTarget::BigAndPrime),
        ThreadRule::wildcard("mqt_*", CoreTarget::BigAndPrime),
        ThreadRule::exact("JavaBridge", CoreTarget::BigAndPrime),
        ThreadRule::wildcard("IL2CPP*", CoreTarget::BigAndPrime),
        ThreadRule::wildcard("arch_disk_*", CoreTarget::BigAndPrime),
        ThreadRule::wildcard("arch_disk*", CoreTarget::BigAndPrime),
        ThreadRule::wildcard("Game[0-9]*", CoreTarget::BigAndPrime),
        ThreadRule::wildcard("*Dispatcher", CoreTarget::BigAndPrime),
        ThreadRule::wildcard("files_database*", CoreTarget::BigAndPrime),
        ThreadRule::exact("searchQueue", CoreTarget::BigAndPrime),
        ThreadRule::wildcard("stageQueue*", CoreTarget::BigAndPrime),
        ThreadRule::exact("fileUploadQueue", CoreTarget::BigAndPrime),
        ThreadRule::wildcard("VDecod*", CoreTarget::BigAndPrime),
        ThreadRule::exact("Lynx_JS", CoreTarget::BigAndPrime),
        ThreadRule::exact("Socket Thread", CoreTarget::BigAndPrime),
        ThreadRule::exact("RxCachedThreadS", CoreTarget::BigAndPrime),
        ThreadRule::wildcard("IOThread*", CoreTarget::BigAndPrime),
        ThreadRule::exact("AndroidUI", CoreTarget::BigAndPrime),
        ThreadRule::exact("Gecko", CoreTarget::BigAndPrime),
        ThreadRule::exact("Web Content", CoreTarget::BigAndPrime),
        // Big: worker pools, IO, network, GPU helpers, Binder, decoding.
        ThreadRule::wildcard("mali-*", CoreTarget::Big),
        ThreadRule::wildcard("RenderThread*", CoreTarget::Big),
        ThreadRule::wildcard("hwuiTask*", CoreTarget::Big),
        ThreadRule::wildcard("hwui*", CoreTarget::Big),
        ThreadRule::exact("Compositor", CoreTarget::Big),
        ThreadRule::wildcard("UnityGfx*", CoreTarget::Big),
        ThreadRule::wildcard("VizCompositor", CoreTarget::Big),
        ThreadRule::wildcard("Job.[Ww]orker*", CoreTarget::Big),
        ThreadRule::exact("UnityPreload", CoreTarget::Big),
        ThreadRule::wildcard("UnityPreload*", CoreTarget::Big),
        ThreadRule::wildcard("UnityMultiRende*", CoreTarget::Big),
        ThreadRule::exact("RHIThread", CoreTarget::Big),
        ThreadRule::wildcard("RHIThread*", CoreTarget::Big),
        ThreadRule::wildcard("TaskGraph*", CoreTarget::Big),
        ThreadRule::exact("ShaderCompiling", CoreTarget::Big),
        ThreadRule::exact("PakMergeThread", CoreTarget::Big),
        ThreadRule::wildcard("DartWorker*", CoreTarget::Big),
        ThreadRule::wildcard("?.io", CoreTarget::Big),
        ThreadRule::exact("Chrome_IOThread", CoreTarget::Big),
        ThreadRule::exact("Chrome_ChildIOT", CoreTarget::Big),
        ThreadRule::exact("NetworkService", CoreTarget::Big),
        ThreadRule::exact("VizWebView", CoreTarget::Big),
        ThreadRule::wildcard("ChromiumNet*", CoreTarget::Big),
        ThreadRule::wildcard("IPC*", CoreTarget::Big),
        ThreadRule::wildcard("IPDL*", CoreTarget::Big),
        ThreadRule::low("*[Bb]ackStage*", CoreTarget::Big),
        ThreadRule::wildcard("Thread-*", CoreTarget::Big),
        ThreadRule::wildcard("NativeThread*", CoreTarget::Big),
        ThreadRule::wildcard("MainThread*", CoreTarget::Big),
        ThreadRule::low("*worker*", CoreTarget::Big),
        ThreadRule::low("*Worker*", CoreTarget::Big),
        ThreadRule::exact("Worker Thread", CoreTarget::Big),
        ThreadRule::wildcard("Task*", CoreTarget::Big),
        ThreadRule::wildcard("JobThread*", CoreTarget::Big),
        ThreadRule::wildcard("PoolThread*", CoreTarget::Big),
        ThreadRule::exact("DispatchQueuePo", CoreTarget::Big),
        ThreadRule::wildcard("io.worker*", CoreTarget::Big),
        ThreadRule::exact("CoreThread", CoreTarget::Big),
        ThreadRule::wildcard("Compute*", CoreTarget::Big),
        ThreadRule::exact("Jit thread pool", CoreTarget::Big),
        ThreadRule::exact("DefaultExecutor", CoreTarget::Big),
        ThreadRule::wildcard("Binder:*", CoreTarget::Big),
        ThreadRule::wildcard("binder:*", CoreTarget::Big),
        ThreadRule::wildcard("HwBinder:*", CoreTarget::Big),
        ThreadRule::wildcard("[Bb]inder:*", CoreTarget::Big),
        ThreadRule::low("*[Bb]inder*", CoreTarget::Big),
        ThreadRule::wildcard("OkHttp*", CoreTarget::Big),
        ThreadRule::low("*[Hh]ttp*", CoreTarget::Big),
        ThreadRule::wildcard("ExoPlayer:*", CoreTarget::Big),
        ThreadRule::wildcard("beacon-thread-*", CoreTarget::Big),
        ThreadRule::wildcard("MediaCodec*", CoreTarget::Big),
        ThreadRule::wildcard("CodecLooper*", CoreTarget::Big),
        ThreadRule::wildcard("storageQueue*", CoreTarget::Big),
        ThreadRule::wildcard("mpv/*", CoreTarget::Big),
        ThreadRule::wildcard("VOutle*", CoreTarget::Big),
        ThreadRule::wildcard("AOutle*", CoreTarget::Big),
        ThreadRule::wildcard("CRI*", CoreTarget::Big),
        ThreadRule::exact("HeapTaskDaemon", CoreTarget::Big),
        ThreadRule::exact("DefaultDispatch", CoreTarget::Big),
        ThreadRule::low("*Event*", CoreTarget::Big),
        ThreadRule::low("*TaskQueue*", CoreTarget::Big),
        ThreadRule::wildcard("Shared_w*", CoreTarget::Big),
        ThreadRule::exact("ThumbnailStorag", CoreTarget::Big),
        ThreadRule::exact("JNISurfaceTextu", CoreTarget::Big),
        ThreadRule::exact("MiniRenderThrea", CoreTarget::Big),
        ThreadRule::exact("LogicThread", CoreTarget::Big),
        ThreadRule::exact("GPM-DataThread", CoreTarget::Big),
        ThreadRule::exact("looper_monitor", CoreTarget::Big),
        ThreadRule::exact("APM_light-weigh", CoreTarget::Big),
        ThreadRule::exact("Phenix-Schedule", CoreTarget::Big),
        ThreadRule::exact("alsoft-mixer", CoreTarget::Big),
        // Little + Big: general thread pools, audio mixing, background loading; never Prime.
        ThreadRule::wildcard("ThreadPoolForeg*", CoreTarget::LittleAndBig),
        ThreadRule::wildcard("ThreadPoolServi*", CoreTarget::LittleAndBig),
        ThreadRule::wildcard("ThreadPool*", CoreTarget::LittleAndBig),
        ThreadRule::wildcard("pool-[0-9]*-thread*", CoreTarget::LittleAndBig),
        ThreadRule::wildcard("#pool-[0-9]*-thread*", CoreTarget::LittleAndBig),
        ThreadRule::wildcard("onPool-worker-*", CoreTarget::LittleAndBig),
        ThreadRule::wildcard("rx-pool-*", CoreTarget::LittleAndBig),
        ThreadRule::wildcard("cached-pool-*", CoreTarget::LittleAndBig),
        ThreadRule::wildcard("pivotal-pool-*", CoreTarget::LittleAndBig),
        ThreadRule::wildcard("vrpool-*", CoreTarget::LittleAndBig),
        ThreadRule::wildcard("ledThreadPool-*", CoreTarget::LittleAndBig),
        ThreadRule::wildcard("*ColdPool*", CoreTarget::LittleAndBig),
        ThreadRule::wildcard("*HotPool*", CoreTarget::LittleAndBig),
        ThreadRule::wildcard("HadesPool*", CoreTarget::LittleAndBig),
        ThreadRule::wildcard("HadesLibPool*", CoreTarget::LittleAndBig),
        ThreadRule::wildcard("*ThreadPool*", CoreTarget::LittleAndBig),
        ThreadRule::wildcard("FMOD*", CoreTarget::LittleAndBig),
        ThreadRule::exact("AudioTrack", CoreTarget::LittleAndBig),
        ThreadRule::wildcard("SoundPool*", CoreTarget::LittleAndBig),
        ThreadRule::wildcard("ijk_dash_pool_*", CoreTarget::LittleAndBig),
        ThreadRule::wildcard("UnityChoreograp*", CoreTarget::LittleAndBig),
        ThreadRule::wildcard("UnityChoreo*", CoreTarget::LittleAndBig),
        ThreadRule::low("*Loading*", CoreTarget::LittleAndBig),
        ThreadRule::wildcard("Loading.*", CoreTarget::LittleAndBig),
        ThreadRule::wildcard("FAsyncLoading*", CoreTarget::LittleAndBig),
        ThreadRule::wildcard("CriManaDecode*", CoreTarget::LittleAndBig),
        ThreadRule::wildcard("DownloadThreadP*", CoreTarget::LittleAndBig),
        ThreadRule::exact("CallbackHndlr", CoreTarget::LittleAndBig),
        ThreadRule::wildcard("IO*Thread*", CoreTarget::LittleAndBig),
        // Little: background, logging, light audio work.
        ThreadRule::low("*[Aa]udio*", CoreTarget::Little),
        ThreadRule::exact("AudioThread", CoreTarget::Little),
        ThreadRule::wildcard("SoundDecoder*", CoreTarget::Little),
        ThreadRule::wildcard("decodeQueue*", CoreTarget::Little),
        ThreadRule::exact("AILocalThread", CoreTarget::Little),
        ThreadRule::wildcard("Apollo-*", CoreTarget::Little),
        ThreadRule::wildcard("GC?Marker??", CoreTarget::Little),
        ThreadRule::wildcard("[Bb][Gg]*", CoreTarget::Little),
        ThreadRule::exact("LogAppendWork", CoreTarget::Little),
        ThreadRule::wildcard("IO-*", CoreTarget::Little),
    ];
    assert(res@.len() == builtin_rules().len());
    res
}


/// Whether the thread name `name` matches `pattern`.
pub fn thread_matches(pattern: &str, name: &str) -> (res: bool)
    ensures
        res == glob_spec(pattern@, name@),
{
    glob_match(pattern, name)
}

/// Whether rule `i` of `rules` decides the placement of `name`: it matches,
/// its priority is positive, no matching rule has a higher priority, and
/// every matching rule before it has a lower priority.
pub open spec fn is_winning_rule(rules: Seq<RuleSpec>, name: Seq<char>, i: int) -> bool {
    &&& 0 <= i < rules.len()
    &&& glob_spec(rules[i].pattern, name)
    &&& rules[i].priority > 0
    &&& forall|j: int|
        0 <= j < rules.len() && glob_spec(#[trigger] rules[j].pattern, name) ==> rules[j].priority
            <= rules[i].priority
    &&& forall|j: int|
        0 <= j < i && glob_spec(#[trigger] rules[j].pattern, name) ==> rules[j].priority
            < rules[i].priority
}

/// Where `rules` place `name`: the target of the winning rule, or
/// `Default` when no rule matches.
pub open spec fn classify_spec(rules: Seq<RuleSpec>, name: Seq<char>) -> CoreTarget {
    if exists|i: int| is_winning_rule(rules, name, i) {
        rules[choose|i: int| is_winning_rule(rules, name, i)].target
    } else {
        CoreTarget::Default
    }
}

/// At most one rule wins.
pub proof fn lemma_winning_rule_unique(rules: Seq<RuleSpec>, name: Seq<char>, i: int, k: int)
    requires
        is_winning_rule(rules, name, i),
        is_winning_rule(rules, name, k),
    ensures
        i == k,
{
    if i < k {
        assert(glob_spec(rules[i].pattern, name));
    } else if k < i {
        assert(glob_spec(rules[k].pattern, name));
    }
}

/// Every rule of the built-in table has priority 20, 50 or 100.
pub proof fn lemma_builtin_priorities()
    ensures
        forall|i: int|
            0 <= i < builtin_rules().len() ==> #[trigger] builtin_rules()[i].priority == 20
                || builtin_rules()[i].priority == 50 || builtin_rules()[i].priority == 100,
{
}

/// A name that matches an exact-name rule (priority 100) of the built-in
/// table is placed by the first such rule, whatever wildcard rules it also
/// matches.
pub proof fn law_exact_name_wins(name: Seq<char>, i: int)
    requires
        0 <= i < builtin_rules().len(),
        builtin_rules()[i].priority == 100,
        glob_spec(builtin_rules()[i].pattern, name),
        forall|j: int|
            0 <= j < i && builtin_rules()[j].priority == 100 ==> !glob_spec(
                #[trigger] builtin_rules()[j].pattern,
                name,
            ),
    ensures
        classify_spec(builtin_rules(), name) == builtin_rules()[i].target,
{
    let rs = builtin_rules();
    lemma_builtin_priorities();
    assert(is_winning_rule(rs, name, i));
    lemma_winning_rule_unique(rs, name, i, choose|k: int| is_winning_rule(rs, name, k));
}

/// The exact-name entries of the built-in table: their patterns hold no
/// wildcard, and no two of them are the same name.
proof fn lemma_exact_entries_distinct_literals()
    ensures
        forall|i: int|
            0 <= i < builtin_rules().len() && builtin_rules()[i].priority == 100 ==> is_literal(
                #[trigger] builtin_rules()[i].pattern,
            ),
        forall|i: int, j: int|
            0 <= i < j < builtin_rules().len() && builtin_rules()[i].priority == 100
                && builtin_rules()[j].priority == 100 ==> #[trigger] builtin_rules()[i].pattern
                != #[trigger] builtin_rules()[j].pattern,
{
    reveal_strlit("1.raster");
    reveal_strlit("1.ui");
    reveal_strlit("2.ui");
    reveal_strlit("AILocalThread");
    reveal_strlit("APM_light-weigh");
    reveal_strlit("AndroidRender");
    reveal_strlit("AndroidUI");
    reveal_strlit("AnimationThread");
    reveal_strlit("AudioThread");
    reveal_strlit("AudioTrack");
    reveal_strlit("CallbackHndlr");
    reveal_strlit("Chrome_ChildIOT");
    reveal_strlit("Chrome_IOThread");
    reveal_strlit("Chrome_InProcGp");
    reveal_strlit("Chrome_InProcRe");
    reveal_strlit("Compositor");
    reveal_strlit("CoreThread");
    reveal_strlit("CrRendererMain");
    reveal_strlit("DefaultDispatch");
    reveal_strlit("DefaultExecutor");
    reveal_strlit("DispatchQueuePo");
    reveal_strlit("GPM-DataThread");
    reveal_strlit("GameThread");
    reveal_strlit("GcamViewfinder");
    reveal_strlit("Gecko");
    reveal_strlit("HeapTaskDaemon");
    reveal_strlit("InputDispatcher");
    reveal_strlit("InsetsAnimation");
    reveal_strlit("JNISurfaceTextu");
    reveal_strlit("JavaBridge");
    reveal_strlit("Jit thread pool");
    reveal_strlit("LogAppendWork");
    reveal_strlit("LogicThread");
    reveal_strlit("Lynx_JS");
    reveal_strlit("MainThread");
    reveal_strlit("Mainloop");
    reveal_strlit("MiniRainbowMain");
    reveal_strlit("MiniRenderThrea");
    reveal_strlit("NetworkService");
    reveal_strlit("PakMergeThread");
    reveal_strlit("Phenix-Schedule");
    reveal_strlit("RHIThread");
    reveal_strlit("RenderEngine");
    reveal_strlit("RenderThread");
    reveal_strlit("RenderingThread");
    reveal_strlit("RxCachedThreadS");
    reveal_strlit("ShaderCompiling");
    reveal_strlit("Socket Thread");
    reveal_strlit("ThumbnailStorag");
    reveal_strlit("UEGameThread");
    reveal_strlit("UnityGfxDeviceW");
    reveal_strlit("UnityMain");
    reveal_strlit("UnityPreload");
    reveal_strlit("VCMainThread");
    reveal_strlit("VizWebView");
    reveal_strlit("VulkanRenderMan");
    reveal_strlit("Web Content");
    reveal_strlit("Worker Thread");
    reveal_strlit("alsoft-mixer");
    reveal_strlit("fileUploadQueue");
    reveal_strlit("looper_monitor");
    reveal_strlit("main");
    reveal_strlit("searchQueue");
    assert forall|i: int, j: int|
        0 <= i < j < builtin_rules().len() && builtin_rules()[i].priority == 100
            && builtin_rules()[j].priority == 100 implies #[trigger] builtin_rules()[i].pattern
            != #[trigger] builtin_rules()[j].pattern by {
        let p = builtin_rules()[i].pattern;
        let q = builtin_rules()[j].pattern;
        assert(p == q ==> p[0] == q[0] && p[1] == q[1] && p[2] == q[2] && p[3] == q[3] && p[4] == q[4] && p[5] == q[5] && p[6] == q[6] && p[7] == q[7] && p[8] == q[8] && p[9] == q[9] && p[10] == q[10] && p[11] == q[11] && p[12] == q[12] && p[13] == q[13] && p[14] == q[14]);
    }
}

/// Every exact-name entry of the built-in table places a thread of that very
/// name at the entry's own class: exact names are never shadowed.
pub proof fn law_exact_entries_place_their_names(i: int)
    requires
        0 <= i < builtin_rules().len(),
        builtin_rules()[i].priority == 100,
    ensures
        classify_spec(builtin_rules(), builtin_rules()[i].pattern) == builtin_rules()[i].target,
{
    let rs = builtin_rules();
    let n = rs[i].pattern;
    lemma_exact_entries_distinct_literals();
    assert forall|j: int| 0 <= j < i && rs[j].priority == 100 implies !glob_spec(
        #[trigger] rs[j].pattern,
        n,
    ) by {
        law_literal_pattern_is_equality(rs[j].pattern, n);
    }
    law_literal_pattern_is_equality(n, n);
    law_exact_name_wins(n, i);
}

/// The thread names that the built-in table sends to the prime core:
/// `RenderThread`, `RenderEngine`, `AndroidRender`, `InputDispatcher`, `main`, `MainThread`,
/// `VCMainThread`, `AnimationThread`, `1.ui`, `2.ui`, `UnityMain`, `UnityGfxDeviceW`,
/// `GameThread`, `UEGameThread`, `RenderingThread`, `Mainloop`, `CrRendererMain`,
/// `Chrome_InProcGp`, `VulkanRenderMan`, `GcamViewfinder`, `MiniRainbowMain`.
#[verifier::spinoff_prover]
#[verifier::rlimit(80)]
pub proof fn law_prime_thread_names()
    ensures
        classify_spec(builtin_rules(), "RenderThread"@) == CoreTarget::Prime,
        classify_spec(builtin_rules(), "RenderEngine"@) == CoreTarget::Prime,
        classify_spec(builtin_rules(), "AndroidRender"@) == CoreTarget::Prime,
        classify_spec(builtin_rules(), "InputDispatcher"@) == CoreTarget::Prime,
        classify_spec(builtin_rules(), "main"@) == CoreTarget::Prime,
        classify_spec(builtin_rules(), "MainThread"@) == CoreTarget::Prime,
        classify_spec(builtin_rules(), "VCMainThread"@) == CoreTarget::Prime,
        classify_spec(builtin_rules(), "AnimationThread"@) == CoreTarget::Prime,
        classify_spec(builtin_rules(), "1.ui"@) == CoreTarget::Prime,
        classify_spec(builtin_rules(), "2.ui"@) == CoreTarget::Prime,
        classify_spec(builtin_rules(), "UnityMain"@) == CoreTarget::Prime,
        classify_spec(builtin_rules(), "UnityGfxDeviceW"@) == CoreTarget::Prime,
        classify_spec(builtin_rules(), "GameThread"@) == CoreTarget::Prime,
        classify_spec(builtin_rules(), "UEGameThread"@) == CoreTarget::Prime,
        classify_spec(builtin_rules(), "RenderingThread"@) == CoreTarget::Prime,
        classify_spec(builtin_rules(), "Mainloop"@) == CoreTarget::Prime,
        classify_spec(builtin_rules(), "CrRendererMain"@) == CoreTarget::Prime,
        classify_spec(builtin_rules(), "Chrome_InProcGp"@) == CoreTarget::Prime,
        classify_spec(builtin_rules(), "VulkanRenderMan"@) == CoreTarget::Prime,
        classify_spec(builtin_rules(), "GcamViewfinder"@) == CoreTarget::Prime,
        classify_spec(builtin_rules(), "MiniRainbowMain"@) == CoreTarget::Prime,
{
    assert(classify_spec(builtin_rules(), "RenderThread"@) == CoreTarget::Prime) by {
        law_exact_entries_place_their_names(0);
    }
    assert(classify_spec(builtin_rules(), "RenderEngine"@) == CoreTarget::Prime) by {
        law_exact_entries_place_their_names(1);
    }
    assert(classify_spec(builtin_rules(), "AndroidRender"@) == CoreTarget::Prime) by {
        law_exact_entries_place_their_names(2);
    }
    assert(classify_spec(builtin_rules(), "InputDispatcher"@) == CoreTarget::Prime) by {
        law_exact_entries_place_their_names(3);
    }
    assert(classify_spec(builtin_rules(), "main"@) == CoreTarget::Prime) by {
        law_exact_entries_place_their_names(4);
    }
    assert(classify_spec(builtin_rules(), "MainThread"@) == CoreTarget::Prime) by {
        law_exact_entries_place_their_names(5);
    }
    assert(classify_spec(builtin_rules(), "VCMainThread"@) == CoreTarget::Prime) by {
        law_exact_entries_place_their_names(6);
    }
    assert(classify_spec(builtin_rules(), "AnimationThread"@) == CoreTarget::Prime) by {
        law_exact_entries_place_their_names(7);
    }
    assert(classify_spec(builtin_rules(), "1.ui"@) == CoreTarget::Prime) by {
        law_exact_entries_place_their_names(8);
    }
    assert(classify_spec(builtin_rules(), "2.ui"@) == CoreTarget::Prime) by {
        law_exact_entries_place_their_names(9);
    }
    assert(classify_spec(builtin_rules(), "UnityMain"@) == CoreTarget::Prime) by {
        law_exact_entries_place_their_names(10);
    }
    assert(classify_spec(builtin_rules(), "UnityGfxDeviceW"@) == CoreTarget::Prime) by {
        law_exact_entries_place_their_names(11);
    }
    assert(classify_spec(builtin_rules(), "GameThread"@) == CoreTarget::Prime) by {
        law_exact_entries_place_their_names(12);
    }
    assert(classify_spec(builtin_rules(), "UEGameThread"@) == CoreTarget::Prime) by {
        law_exact_entries_place_their_names(13);
    }
    assert(classify_spec(builtin_rules(), "RenderingThread"@) == CoreTarget::Prime) by {
        law_exact_entries_place_their_names(14);
    }
    assert(classify_spec(builtin_rules(), "Mainloop"@) == CoreTarget::Prime) by {
        law_exact_entries_place_their_names(15);
    }
    assert(classify_spec(builtin_rules(), "CrRendererMain"@) == CoreTarget::Prime) by {
        law_exact_entries_place_their_names(16);
    }
    assert(classify_spec(builtin_rules(), "Chrome_InProcGp"@) == CoreTarget::Prime) by {
        law_exact_entries_place_their_names(17);
    }
    assert(classify_spec(builtin_rules(), "VulkanRenderMan"@) == CoreTarget::Prime) by {
        law_exact_entries_place_their_names(18);
    }
    assert(classify_spec(builtin_rules(), "GcamViewfinder"@) == CoreTarget::Prime) by {
        law_exact_entries_place_their_names(19);
    }
    assert(classify_spec(builtin_rules(), "MiniRainbowMain"@) == CoreTarget::Prime) by {
        law_exact_entries_place_their_names(20);
    }
}

/// The thread names that the built-in table sends to the big and prime cores:
/// `Chrome_InProcRe`, `1.raster`, `InsetsAnimation`, `JavaBridge`, `searchQueue`,
/// `fileUploadQueue`, `Lynx_JS`, `Socket Thread`, `RxCachedThreadS`, `AndroidUI`, `Gecko`,
/// `Web Content`.
pub proof fn law_big_and_prime_thread_names()
    ensures
        classify_spec(builtin_rules(), "Chrome_InProcRe"@) == CoreTarget::BigAndPrime,
        classify_spec(builtin_rules(), "1.raster"@) == CoreTarget::BigAndPrime,
        classify_spec(builtin_rules(), "InsetsAnimation"@) == CoreTarget::BigAndPrime,
        classify_spec(builtin_rules(), "JavaBridge"@) == CoreTarget::BigAndPrime,
        classify_spec(builtin_rules(), "searchQueue"@) == CoreTarget::BigAndPrime,
        classify_spec(builtin_rules(), "fileUploadQueue"@) == CoreTarget::BigAndPrime,
        classify_spec(builtin_rules(), "Lynx_JS"@) == CoreTarget::BigAndPrime,
        classify_spec(builtin_rules(), "Socket Thread"@) == CoreTarget::BigAndPrime,
        classify_spec(builtin_rules(), "RxCachedThreadS"@) == CoreTarget::BigAndPrime,
        classify_spec(builtin_rules(), "AndroidUI"@) == CoreTarget::BigAndPrime,
        classify_spec(builtin_rules(), "Gecko"@) == CoreTarget::BigAndPrime,
        classify_spec(builtin_rules(), "Web Content"@) == CoreTarget::BigAndPrime,
{
    assert(classify_spec(builtin_rules(), "Chrome_InProcRe"@) == CoreTarget::BigAndPrime) by {
        law_exact_entries_place_their_names(22);
    }
    assert(classify_spec(builtin_rules(), "1.raster"@) == CoreTarget::BigAndPrime) by {
        law_exact_entries_place_their_names(23);
    }
    assert(classify_spec(builtin_rules(), "InsetsAnimation"@) == CoreTarget::BigAndPrime) by {
        law_exact_entries_place_their_names(26);
    }
    assert(classify_spec(builtin_rules(), "JavaBridge"@) == CoreTarget::BigAndPrime) by {
        law_exact_entries_place_their_names(33);
    }
    assert(classify_spec(builtin_rules(), "searchQueue"@) == CoreTarget::BigAndPrime) by {
        law_exact_entries_place_their_names(40);
    }
    assert(classify_spec(builtin_rules(), "fileUploadQueue"@) == CoreTarget::BigAndPrime) by {
        law_exact_entries_place_their_names(42);
    }
    assert(classify_spec(builtin_rules(), "Lynx_JS"@) == CoreTarget::BigAndPrime) by {
        law_exact_entries_place_their_names(44);
    }
    assert(classify_spec(builtin_rules(), "Socket Thread"@) == CoreTarget::BigAndPrime) by {
        law_exact_entries_place_their_names(45);
    }
    assert(classify_spec(builtin_rules(), "RxCachedThreadS"@) == CoreTarget::BigAndPrime) by {
        law_exact_entries_place_their_names(46);
    }
    assert(classify_spec(builtin_rules(), "AndroidUI"@) == CoreTarget::BigAndPrime) by {
        law_exact_entries_place_their_names(48);
    }
    assert(classify_spec(builtin_rules(), "Gecko"@) == CoreTarget::BigAndPrime) by {
        law_exact_entries_place_their_names(49);
    }
    assert(classify_spec(builtin_rules(), "Web Content"@) == CoreTarget::BigAndPrime) by {
        law_exact_entries_place_their_names(50);
    }
}

/// The thread names that the built-in table sends to the big cores:
/// `Compositor`, `UnityPreload`, `RHIThread`, `ShaderCompiling`, `PakMergeThread`,
/// `Chrome_IOThread`, `Chrome_ChildIOT`, `NetworkService`, `VizWebView`, `Worker Thread`,
/// `DispatchQueuePo`, `CoreThread`, `Jit thread pool`, `DefaultExecutor`, `HeapTaskDaemon`,
/// `DefaultDispatch`, `ThumbnailStorag`, `JNISurfaceTextu`, `MiniRenderThrea`, `LogicThread`,
/// `GPM-DataThread`, `looper_monitor`, `APM_light-weigh`, `Phenix-Schedule`, `alsoft-mixer`.
#[verifier::spinoff_prover]
#[verifier::rlimit(80)]
pub proof fn law_big_thread_names()
    ensures
        classify_spec(builtin_rules(), "Compositor"@) == CoreTarget::Big,
        classify_spec(builtin_rules(), "UnityPreload"@) == CoreTarget::Big,
        classify_spec(builtin_rules(), "RHIThread"@) == CoreTarget::Big,
        classify_spec(builtin_rules(), "ShaderCompiling"@) == CoreTarget::Big,
        classify_spec(builtin_rules(), "PakMergeThread"@) == CoreTarget::Big,
        classify_spec(builtin_rules(), "Chrome_IOThread"@) == CoreTarget::Big,
        classify_spec(builtin_rules(), "Chrome_ChildIOT"@) == CoreTarget::Big,
        classify_spec(builtin_rules(), "NetworkService"@) == CoreTarget::Big,
        classify_spec(builtin_rules(), "VizWebView"@) == CoreTarget::Big,
        classify_spec(builtin_rules(), "Worker Thread"@) == CoreTarget::Big,
        classify_spec(builtin_rules(), "DispatchQueuePo"@) == CoreTarget::Big,
        classify_spec(builtin_rules(), "CoreThread"@) == CoreTarget::Big,
        classify_spec(builtin_rules(), "Jit thread pool"@) == CoreTarget::Big,
        classify_spec(builtin_rules(), "DefaultExecutor"@) == CoreTarget::Big,
        classify_spec(builtin_rules(), "HeapTaskDaemon"@) == CoreTarget::Big,
        classify_spec(builtin_rules(), "DefaultDispatch"@) == CoreTarget::Big,
        classify_spec(builtin_rules(), "ThumbnailStorag"@) == CoreTarget::Big,
        classify_spec(builtin_rules(), "JNISurfaceTextu"@) == CoreTarget::Big,
        classify_spec(builtin_rules(), "MiniRenderThrea"@) == CoreTarget::Big,
        classify_spec(builtin_rules(), "LogicThread"@) == CoreTarget::Big,
        classify_spec(builtin_rules(), "GPM-DataThread"@) == CoreTarget::Big,
        classify_spec(builtin_rules(), "looper_monitor"@) == CoreTarget::Big,
        classify_spec(builtin_rules(), "APM_light-weigh"@) == CoreTarget::Big,
        classify_spec(builtin_rules(), "Phenix-Schedule"@) == CoreTarget::Big,
        classify_spec(builtin_rules(), "alsoft-mixer"@) == CoreTarget::Big,
{
    assert(classify_spec(builtin_rules(), "Compositor"@) == CoreTarget::Big) by {
        law_exact_entries_place_their_names(55);
    }
    assert(classify_spec(builtin_rules(), "UnityPreload"@) == CoreTarget::Big) by {
        law_exact_entries_place_their_names(59);
    }
    assert(classify_spec(builtin_rules(), "RHIThread"@) == CoreTarget::Big) by {
        law_exact_entries_place_their_names(62);
    }
    assert(classify_spec(builtin_rules(), "ShaderCompiling"@) == CoreTarget::Big) by {
        law_exact_entries_place_their_names(65);
    }
    assert(classify_spec(builtin_rules(), "PakMergeThread"@) == CoreTarget::Big) by {
        law_exact_entries_place_their_names(66);
    }
    assert(classify_spec(builtin_rules(), "Chrome_IOThread"@) == CoreTarget::Big) by {
        law_exact_entries_place_their_names(69);
    }
    assert(classify_spec(builtin_rules(), "Chrome_ChildIOT"@) == CoreTarget::Big) by {
        law_exact_entries_place_their_names(70);
    }
    assert(classify_spec(builtin_rules(), "NetworkService"@) == CoreTarget::Big) by {
        law_exact_entries_place_their_names(71);
    }
    assert(classify_spec(builtin_rules(), "VizWebView"@) == CoreTarget::Big) by {
        law_exact_entries_place_their_names(72);
    }
    assert(classify_spec(builtin_rules(), "Worker Thread"@) == CoreTarget::Big) by {
        law_exact_entries_place_their_names(82);
    }
    assert(classify_spec(builtin_rules(), "DispatchQueuePo"@) == CoreTarget::Big) by {
        law_exact_entries_place_their_names(86);
    }
    assert(classify_spec(builtin_rules(), "CoreThread"@) == CoreTarget::Big) by {
        law_exact_entries_place_their_names(88);
    }
    assert(classify_spec(builtin_rules(), "Jit thread pool"@) == CoreTarget::Big) by {
        law_exact_entries_place_their_names(90);
    }
    assert(classify_spec(builtin_rules(), "DefaultExecutor"@) == CoreTarget::Big) by {
        law_exact_entries_place_their_names(91);
    }
    assert(classify_spec(builtin_rules(), "HeapTaskDaemon"@) == CoreTarget::Big) by {
        law_exact_entries_place_their_names(108);
    }
    assert(classify_spec(builtin_rules(), "DefaultDispatch"@) == CoreTarget::Big) by {
        law_exact_entries_place_their_names(109);
    }
    assert(classify_spec(builtin_rules(), "ThumbnailStorag"@) == CoreTarget::Big) by {
        law_exact_entries_place_their_names(113);
    }
    assert(classify_spec(builtin_rules(), "JNISurfaceTextu"@) == CoreTarget::Big) by {
        law_exact_entries_place_their_names(114);
    }
    assert(classify_spec(builtin_rules(), "MiniRenderThrea"@) == CoreTarget::Big) by {
        law_exact_entries_place_their_names(115);
    }
    assert(classify_spec(builtin_rules(), "LogicThread"@) == CoreTarget::Big) by {
        law_exact_entries_place_their_names(116);
    }
    assert(classify_spec(builtin_rules(), "GPM-DataThread"@) == CoreTarget::Big) by {
        law_exact_entries_place_their_names(117);
    }
    assert(classify_spec(builtin_rules(), "looper_monitor"@) == CoreTarget::Big) by {
        law_exact_entries_place_their_names(118);
    }
    assert(classify_spec(builtin_rules(), "APM_light-weigh"@) == CoreTarget::Big) by {
        law_exact_entries_place_their_names(119);
    }
    assert(classify_spec(builtin_rules(), "Phenix-Schedule"@) == CoreTarget::Big) by {
        law_exact_entries_place_their_names(120);
    }
    assert(classify_spec(builtin_rules(), "alsoft-mixer"@) == CoreTarget::Big) by {
        law_exact_entries_place_their_names(121);
    }
}

/// The thread names that the built-in table sends to the little and big cores:
/// `AudioTrack`, `CallbackHndlr`.
pub proof fn law_little_and_big_thread_names()
    ensures
        classify_spec(builtin_rules(), "AudioTrack"@) == CoreTarget::LittleAndBig,
        classify_spec(builtin_rules(), "CallbackHndlr"@) == CoreTarget::LittleAndBig,
{
    assert(classify_spec(builtin_rules(), "AudioTrack"@) == CoreTarget::LittleAndBig) by {
        law_exact_entries_place_their_names(139);
    }
    assert(classify_spec(builtin_rules(), "CallbackHndlr"@) == CoreTarget::LittleAndBig) by {
        law_exact_entries_place_their_names(149);
    }
}

/// The thread names that the built-in table sends to the little cores:
/// `AudioThread`, `AILocalThread`, `LogAppendWork`.
pub proof fn law_little_thread_names()
    ensures
        classify_spec(builtin_rules(), "AudioThread"@) == CoreTarget::Little,
        classify_spec(builtin_rules(), "AILocalThread"@) == CoreTarget::Little,
        classify_spec(builtin_rules(), "LogAppendWork"@) == CoreTarget::Little,
{
    assert(classify_spec(builtin_rules(), "AudioThread"@) == CoreTarget::Little) by {
        law_exact_entries_place_their_names(152);
    }
    assert(classify_spec(builtin_rules(), "AILocalThread"@) == CoreTarget::Little) by {
        law_exact_entries_place_their_names(155);
    }
    assert(classify_spec(builtin_rules(), "LogAppendWork"@) == CoreTarget::Little) by {
        law_exact_entries_place_their_names(159);
    }
}

/// A name that matches a wildcard entry (priority 50), no exact-name entry
/// and no earlier wildcard entry is placed by that entry.
proof fn lemma_wildcard_entry_wins(name: Seq<char>, i: int)
    requires
        0 <= i < builtin_rules().len(),
        builtin_rules()[i].priority == 50,
        glob_spec(builtin_rules()[i].pattern, name),
        forall|j: int|
            0 <= j < builtin_rules().len() && builtin_rules()[j].priority == 100
                ==> #[trigger] builtin_rules()[j].pattern != name,
        forall|j: int|
            0 <= j < i && builtin_rules()[j].priority == 50 ==> !glob_spec(
                #[trigger] builtin_rules()[j].pattern,
                name,
            ),
    ensures
        classify_spec(builtin_rules(), name) == builtin_rules()[i].target,
{
    let rs = builtin_rules();
    lemma_builtin_priorities();
    lemma_exact_entries_distinct_literals();
    assert forall|j: int| 0 <= j < rs.len() && rs[j].priority == 100 implies !glob_spec(
        #[trigger] rs[j].pattern,
        name,
    ) by {
        law_literal_pattern_is_equality(rs[j].pattern, name);
    }
    assert(is_winning_rule(rs, name, i));
    lemma_winning_rule_unique(rs, name, i, choose|k: int| is_winning_rule(rs, name, k));
}

/// A name that matches a broad entry (priority 20), no exact-name or
/// wildcard entry, and no earlier broad entry is placed by that entry.
proof fn lemma_broad_entry_wins(name: Seq<char>, i: int)
    requires
        0 <= i < builtin_rules().len(),
        builtin_rules()[i].priority == 20,
        glob_spec(builtin_rules()[i].pattern, name),
        forall|j: int|
            0 <= j < builtin_rules().len() && builtin_rules()[j].priority == 100
                ==> #[trigger] builtin_rules()[j].pattern != name,
        forall|j: int|
            0 <= j < builtin_rules().len() && builtin_rules()[j].priority == 50 ==> !glob_spec(
                #[trigger] builtin_rules()[j].pattern,
                name,
            ),
        forall|j: int|
            0 <= j < i && builtin_rules()[j].priority == 20 ==> !glob_spec(
                #[trigger] builtin_rules()[j].pattern,
                name,
            ),
    ensures
        classify_spec(builtin_rules(), name) == builtin_rules()[i].target,
{
    let rs = builtin_rules();
    lemma_builtin_priorities();
    lemma_exact_entries_distinct_literals();
    assert forall|j: int| 0 <= j < rs.len() && rs[j].priority == 100 implies !glob_spec(
        #[trigger] rs[j].pattern,
        name,
    ) by {
        law_literal_pattern_is_equality(rs[j].pattern, name);
    }
    assert(is_winning_rule(rs, name, i));
    lemma_winning_rule_unique(rs, name, i, choose|k: int| is_winning_rule(rs, name, k));
}

/// Every thread whose name begins with `glide` (the image loader's pools),
/// `AsyncTask` (Android's task pool), `mqt_` (React Native's message
/// queues), `IL2CPP` (Unity's IL2CPP runtime) or `arch_disk_` (AndroidX
/// architecture components' disk IO) goes to the big and prime cores.
#[verifier::spinoff_prover]
#[verifier::rlimit(80)]
pub proof fn law_big_and_prime_prefixes(suffix: Seq<char>)
    ensures
        classify_spec(builtin_rules(), "glide"@ + suffix) == CoreTarget::BigAndPrime,
        classify_spec(builtin_rules(), "AsyncTask"@ + suffix) == CoreTarget::BigAndPrime,
        classify_spec(builtin_rules(), "mqt_"@ + suffix) == CoreTarget::BigAndPrime,
        classify_spec(builtin_rules(), "IL2CPP"@ + suffix) == CoreTarget::BigAndPrime,
        classify_spec(builtin_rules(), "arch_disk_"@ + suffix) == CoreTarget::BigAndPrime,
{
    let rs = builtin_rules();
    reveal_strlit("1.raster");
    reveal_strlit("1.ui");
    reveal_strlit("2.ui");
    reveal_strlit("AILocalThread");
    reveal_strlit("APM_light-weigh");
    reveal_strlit("AndroidRender");
    reveal_strlit("AndroidUI");
    reveal_strlit("AnimationThread");
    reveal_strlit("AudioThread");
    reveal_strlit("AudioTrack");
    reveal_strlit("CallbackHndlr");
    reveal_strlit("Chrome_ChildIOT");
    reveal_strlit("Chrome_IOThread");
    reveal_strlit("Chrome_InProcGp");
    reveal_strlit("Chrome_InProcRe");
    reveal_strlit("Compositor");
    reveal_strlit("CoreThread");
    reveal_strlit("CrRendererMain");
    reveal_strlit("DefaultDispatch");
    reveal_strlit("DefaultExecutor");
    reveal_strlit("DispatchQueuePo");
    reveal_strlit("GPM-DataThread");
    reveal_strlit("GameThread");
    reveal_strlit("GcamViewfinder");
    reveal_strlit("Gecko");
    reveal_strlit("HeapTaskDaemon");
    reveal_strlit("InputDispatcher");
    reveal_strlit("InsetsAnimation");
    reveal_strlit("JNISurfaceTextu");
    reveal_strlit("JavaBridge");
    reveal_strlit("Jit thread pool");
    reveal_strlit("LogAppendWork");
    reveal_strlit("LogicThread");
    reveal_strlit("Lynx_JS");
    reveal_strlit("MainThread");
    reveal_strlit("Mainloop");
    reveal_strlit("MiniRainbowMain");
    reveal_strlit("MiniRenderThrea");
    reveal_strlit("NetworkService");
    reveal_strlit("PakMergeThread");
    reveal_strlit("Phenix-Schedule");
    reveal_strlit("RHIThread");
    reveal_strlit("RenderEngine");
    reveal_strlit("RenderThread");
    reveal_strlit("RenderingThread");
    reveal_strlit("RxCachedThreadS");
    reveal_strlit("ShaderCompiling");
    reveal_strlit("Socket Thread");
    reveal_strlit("ThumbnailStorag");
    reveal_strlit("UEGameThread");
    reveal_strlit("UnityGfxDeviceW");
    reveal_strlit("UnityMain");
    reveal_strlit("UnityPreload");
    reveal_strlit("VCMainThread");
    reveal_strlit("VizWebView");
    reveal_strlit("VulkanRenderMan");
    reveal_strlit("Web Content");
    reveal_strlit("Worker Thread");
    reveal_strlit("alsoft-mixer");
    reveal_strlit("fileUploadQueue");
    reveal_strlit("looper_monitor");
    reveal_strlit("main");
    reveal_strlit("searchQueue");
    reveal_strlit("glide*");
    reveal_strlit("glide-*");
    reveal_strlit("AsyncTask*");
    reveal_strlit("mqt_*");
    reveal_strlit("GLThread*");
    reveal_strlit("?.raster");
    reveal_strlit("?.ui");
    reveal_strlit("glide");
    reveal_strlit("AsyncTask");
    reveal_strlit("mqt_");
    reveal_strlit("IL2CPP*");
    reveal_strlit("arch_disk_*");
    reveal_strlit("IL2CPP");
    reveal_strlit("arch_disk_");
    assert(classify_spec(rs, "glide"@ + suffix) == CoreTarget::BigAndPrime) by {
        let name = "glide"@ + suffix;
        assert(name[0] == 'g' && name[1] == 'l');
        assert forall|j: int| 0 <= j < rs.len() && rs[j].priority == 100 implies #[trigger] rs[
            j
        ].pattern != name by {
            let p = rs[j].pattern;
            assert(p == name ==> p[0] == name[0] && p[1] == name[1]);
        }
        assert forall|j: int| 0 <= j < 29 && rs[j].priority == 50 implies !glob_spec(
            #[trigger] rs[j].pattern,
            name,
        ) by {
            let p = rs[j].pattern;
            if p[0] == '?' || p[0] == name[0] {
                lemma_literal_mismatch(p, name, 1);
            } else {
                lemma_literal_mismatch(p, name, 0);
            }
        }
        assert("glide*"@ =~= "glide"@.push('*'));
        assert(name.subrange(0, 5) =~= "glide"@);
        law_literal_prefix_star("glide"@, name);
        lemma_wildcard_entry_wins(name, 29);
    }
    assert(classify_spec(rs, "AsyncTask"@ + suffix) == CoreTarget::BigAndPrime) by {
        let name = "AsyncTask"@ + suffix;
        assert(name[0] == 'A' && name[1] == 's');
        assert forall|j: int| 0 <= j < rs.len() && rs[j].priority == 100 implies #[trigger] rs[
            j
        ].pattern != name by {
            let p = rs[j].pattern;
            assert(p == name ==> p[0] == name[0] && p[1] == name[1]);
        }
        assert forall|j: int| 0 <= j < 31 && rs[j].priority == 50 implies !glob_spec(
            #[trigger] rs[j].pattern,
            name,
        ) by {
            let p = rs[j].pattern;
            if p[0] == '?' || p[0] == name[0] {
                lemma_literal_mismatch(p, name, 1);
            } else {
                lemma_literal_mismatch(p, name, 0);
            }
        }
        assert("AsyncTask*"@ =~= "AsyncTask"@.push('*'));
        assert(name.subrange(0, 9) =~= "AsyncTask"@);
        law_literal_prefix_star("AsyncTask"@, name);
        lemma_wildcard_entry_wins(name, 31);
    }
    assert(classify_spec(rs, "mqt_"@ + suffix) == CoreTarget::BigAndPrime) by {
        let name = "mqt_"@ + suffix;
        assert(name[0] == 'm' && name[1] == 'q');
        assert forall|j: int| 0 <= j < rs.len() && rs[j].priority == 100 implies #[trigger] rs[
            j
        ].pattern != name by {
            let p = rs[j].pattern;
            assert(p == name ==> p[0] == name[0] && p[1] == name[1]);
        }
        assert forall|j: int| 0 <= j < 32 && rs[j].priority == 50 implies !glob_spec(
            #[trigger] rs[j].pattern,
            name,
        ) by {
            let p = rs[j].pattern;
            if p[0] == '?' || p[0] == name[0] {
                lemma_literal_mismatch(p, name, 1);
            } else {
                lemma_literal_mismatch(p, name, 0);
            }
        }
        assert("mqt_*"@ =~= "mqt_"@.push('*'));
        assert(name.subrange(0, 4) =~= "mqt_"@);
        law_literal_prefix_star("mqt_"@, name);
        lemma_wildcard_entry_wins(name, 32);
    }
    assert(classify_spec(rs, "IL2CPP"@ + suffix) == CoreTarget::BigAndPrime) by {
        let name = "IL2CPP"@ + suffix;
        assert(name[0] == 'I' && name[1] == 'L');
        assert forall|j: int| 0 <= j < rs.len() && rs[j].priority == 100 implies #[trigger] rs[
            j
        ].pattern != name by {
            let p = rs[j].pattern;
            assert(p == name ==> p[0] == name[0] && p[1] == name[1]);
        }
        assert forall|j: int| 0 <= j < 34 && rs[j].priority == 50 implies !glob_spec(
            #[trigger] rs[j].pattern,
            name,
        ) by {
            let p = rs[j].pattern;
            if p[0] == '?' || p[0] == name[0] {
                lemma_literal_mismatch(p, name, 1);
            } else {
                lemma_literal_mismatch(p, name, 0);
            }
        }
        assert("IL2CPP*"@ =~= "IL2CPP"@.push('*'));
        assert(name.subrange(0, 6) =~= "IL2CPP"@);
        law_literal_prefix_star("IL2CPP"@, name);
        lemma_wildcard_entry_wins(name, 34);
    }
    assert(classify_spec(rs, "arch_disk_"@ + suffix) == CoreTarget::BigAndPrime) by {
        let name = "arch_disk_"@ + suffix;
        assert(name[0] == 'a' && name[1] == 'r');
        assert forall|j: int| 0 <= j < rs.len() && rs[j].priority == 100 implies #[trigger] rs[
            j
        ].pattern != name by {
            let p = rs[j].pattern;
            assert(p == name ==> p[0] == name[0] && p[1] == name[1]);
        }
        assert forall|j: int| 0 <= j < 35 && rs[j].priority == 50 implies !glob_spec(
            #[trigger] rs[j].pattern,
            name,
        ) by {
            let p = rs[j].pattern;
            if p[0] == '?' || p[0] == name[0] {
                lemma_literal_mismatch(p, name, 1);
            } else {
                lemma_literal_mismatch(p, name, 0);
            }
        }
        assert("arch_disk_*"@ =~= "arch_disk_"@.push('*'));
        assert(name.subrange(0, 10) =~= "arch_disk_"@);
        law_literal_prefix_star("arch_disk_"@, name);
        lemma_wildcard_entry_wins(name, 35);
    }
}

/// Every thread whose name begins with `UnityGfx` (Unity's graphics
/// workers) goes to the big cores, except `UnityGfxDeviceW`, Unity's render
/// thread, which has an entry of its own, and names that end in
/// `Dispatcher`, which dispatcher threads claim first.
pub proof fn law_unity_gfx_threads(suffix: Seq<char>)
    requires
        suffix != "DeviceW"@,
        !"Dispatcher"@.is_suffix_of("UnityGfx"@ + suffix),
    ensures
        classify_spec(builtin_rules(), "UnityGfx"@ + suffix) == CoreTarget::Big,
{
    let rs = builtin_rules();
    let name = "UnityGfx"@ + suffix;
    reveal_strlit("*Dispatcher");
    reveal_strlit("1.raster");
    reveal_strlit("1.ui");
    reveal_strlit("2.ui");
    reveal_strlit("?.raster");
    reveal_strlit("?.ui");
    reveal_strlit("AILocalThread");
    reveal_strlit("APM_light-weigh");
    reveal_strlit("AndroidRender");
    reveal_strlit("AndroidUI");
    reveal_strlit("AnimationThread");
    reveal_strlit("AsyncTask*");
    reveal_strlit("AudioThread");
    reveal_strlit("AudioTrack");
    reveal_strlit("CallbackHndlr");
    reveal_strlit("Chrome_ChildIOT");
    reveal_strlit("Chrome_IOThread");
    reveal_strlit("Chrome_InProcGp");
    reveal_strlit("Chrome_InProcRe");
    reveal_strlit("Compositor");
    reveal_strlit("CoreThread");
    reveal_strlit("CrRendererMain");
    reveal_strlit("DefaultDispatch");
    reveal_strlit("DefaultExecutor");
    reveal_strlit("DeviceW");
    reveal_strlit("DispatchQueuePo");
    reveal_strlit("Dispatcher");
    reveal_strlit("GLThread*");
    reveal_strlit("GPM-DataThread");
    reveal_strlit("GameThread");
    reveal_strlit("Game[0-9]*");
    reveal_strlit("GcamViewfinder");
    reveal_strlit("Gecko");
    reveal_strlit("HeapTaskDaemon");
    reveal_strlit("IL2CPP*");
    reveal_strlit("IOThread*");
    reveal_strlit("InputDispatcher");
    reveal_strlit("InsetsAnimation");
    reveal_strlit("JNISurfaceTextu");
    reveal_strlit("JavaBridge");
    reveal_strlit("Jit thread pool");
    reveal_strlit("LogAppendWork");
    reveal_strlit("LogicThread");
    reveal_strlit("Lynx_JS");
    reveal_strlit("MainThread");
    reveal_strlit("Mainloop");
    reveal_strlit("MiniRainbowMain");
    reveal_strlit("MiniRenderThrea");
    reveal_strlit("NetworkService");
    reveal_strlit("PakMergeThread");
    reveal_strlit("Phenix-Schedule");
    reveal_strlit("RHIThread");
    reveal_strlit("RenderEngine");
    reveal_strlit("RenderThread");
    reveal_strlit("RenderThread*");
    reveal_strlit("RenderingThread");
    reveal_strlit("RxCachedThreadS");
    reveal_strlit("ShaderCompiling");
    reveal_strlit("Socket Thread");
    reveal_strlit("ThumbnailStorag");
    reveal_strlit("UEGameThread");
    reveal_strlit("UnityGfx");
    reveal_strlit("UnityGfx*");
    reveal_strlit("UnityGfxDeviceW");
    reveal_strlit("UnityMain");
    reveal_strlit("UnityPreload");
    reveal_strlit("VCMainThread");
    reveal_strlit("VDecod*");
    reveal_strlit("VizWebView");
    reveal_strlit("VulkanRenderMan");
    reveal_strlit("Web Content");
    reveal_strlit("Worker Thread");
    reveal_strlit("alsoft-mixer");
    reveal_strlit("arch_disk*");
    reveal_strlit("arch_disk_*");
    reveal_strlit("fileUploadQueue");
    reveal_strlit("files_database*");
    reveal_strlit("glide*");
    reveal_strlit("glide-*");
    reveal_strlit("hwui*");
    reveal_strlit("hwuiTask*");
    reveal_strlit("looper_monitor");
    reveal_strlit("main");
    reveal_strlit("mali-*");
    reveal_strlit("mqt_*");
    reveal_strlit("searchQueue");
    reveal_strlit("stageQueue*");
    assert(name.subrange(8, name.len() as int) =~= suffix);
    assert("UnityGfxDeviceW"@.subrange(8, 15) =~= "DeviceW"@);
    assert("UnityGfxDeviceW"@ != name);
    assert(name[0] == 'U' && name[1] == 'n' && name[2] == 'i' && name[3] == 't' && name[4] == 'y'
        && name[5] == 'G');
    assert forall|j: int| 0 <= j < rs.len() && rs[j].priority == 100 implies #[trigger] rs[
        j
    ].pattern != name by {
        let p = rs[j].pattern;
        assert(p == name ==> p[0] == name[0] && p[1] == name[1] && p[2] == name[2] && p[3]
            == name[3] && p[4] == name[4] && p[5] == name[5]);
    }
    assert("*Dispatcher"@ =~= seq!['*'] + "Dispatcher"@);
    assert(is_literal("Dispatcher"@));
    law_star_literal_suffix("Dispatcher"@, name);
    assert forall|j: int| 0 <= j < 56 && rs[j].priority == 50 implies !glob_spec(
        #[trigger] rs[j].pattern,
        name,
    ) by {
        let p = rs[j].pattern;
        if p[0] == '*' {
            assert(p == "*Dispatcher"@);
        } else if p[0] == '?' {
            lemma_literal_mismatch(p, name, 1);
        } else {
            lemma_literal_mismatch(p, name, 0);
        }
    }
    assert("UnityGfx*"@ =~= "UnityGfx"@.push('*'));
    assert(name.subrange(0, 8) =~= "UnityGfx"@);
    law_literal_prefix_star("UnityGfx"@, name);
    lemma_wildcard_entry_wins(name, 56);
}

/// Every thread whose name begins with `ThreadPoolForeg` (Chromium's
/// foreground pool), `FMOD` (the FMOD audio engine) or `UnityChoreo`
/// (Unity's choreographer) goes to the little and big cores, unless its
/// name ends in `Dispatcher`, which dispatcher threads claim first.
#[verifier::spinoff_prover]
#[verifier::rlimit(80)]
pub proof fn law_little_and_big_prefixes(suffix: Seq<char>)
    ensures
        !"Dispatcher"@.is_suffix_of("ThreadPoolForeg"@ + suffix) ==> classify_spec(
            builtin_rules(),
            "ThreadPoolForeg"@ + suffix,
        ) == CoreTarget::LittleAndBig,
        !"Dispatcher"@.is_suffix_of("FMOD"@ + suffix) ==> classify_spec(
            builtin_rules(),
            "FMOD"@ + suffix,
        ) == CoreTarget::LittleAndBig,
        !"Dispatcher"@.is_suffix_of("UnityChoreo"@ + suffix) ==> classify_spec(
            builtin_rules(),
            "UnityChoreo"@ + suffix,
        ) == CoreTarget::LittleAndBig,
{
    let rs = builtin_rules();
    reveal_strlit("#pool-[0-9]*-thread*");
    reveal_strlit("*ColdPool*");
    reveal_strlit("*Dispatcher");
    reveal_strlit("*HotPool*");
    reveal_strlit("*ThreadPool*");
    reveal_strlit("1.raster");
    reveal_strlit("1.ui");
    reveal_strlit("2.ui");
    reveal_strlit("?.io");
    reveal_strlit("?.raster");
    reveal_strlit("?.ui");
    reveal_strlit("AILocalThread");
    reveal_strlit("AOutle*");
    reveal_strlit("APM_light-weigh");
    reveal_strlit("AndroidRender");
    reveal_strlit("AndroidUI");
    reveal_strlit("AnimationThread");
    reveal_strlit("AsyncTask*");
    reveal_strlit("AudioThread");
    reveal_strlit("AudioTrack");
    reveal_strlit("Binder:*");
    reveal_strlit("CRI*");
    reveal_strlit("CallbackHndlr");
    reveal_strlit("Chrome_ChildIOT");
    reveal_strlit("Chrome_IOThread");
    reveal_strlit("Chrome_InProcGp");
    reveal_strlit("Chrome_InProcRe");
    reveal_strlit("ChromiumNet*");
    reveal_strlit("CodecLooper*");
    reveal_strlit("Compositor");
    reveal_strlit("Compute*");
    reveal_strlit("CoreThread");
    reveal_strlit("CrRendererMain");
    reveal_strlit("DartWorker*");
    reveal_strlit("DefaultDispatch");
    reveal_strlit("DefaultExecutor");
    reveal_strlit("DispatchQueuePo");
    reveal_strlit("Dispatcher");
    reveal_strlit("ExoPlayer:*");
    reveal_strlit("FMOD");
    reveal_strlit("FMOD*");
    reveal_strlit("GLThread*");
    reveal_strlit("GPM-DataThread");
    reveal_strlit("GameThread");
    reveal_strlit("Game[0-9]*");
    reveal_strlit("GcamViewfinder");
    reveal_strlit("Gecko");
    reveal_strlit("HadesLibPool*");
    reveal_strlit("HadesPool*");
    reveal_strlit("HeapTaskDaemon");
    reveal_strlit("HwBinder:*");
    reveal_strlit("IL2CPP*");
    reveal_strlit("IOThread*");
    reveal_strlit("IPC*");
    reveal_strlit("IPDL*");
    reveal_strlit("InputDispatcher");
    reveal_strlit("InsetsAnimation");
    reveal_strlit("JNISurfaceTextu");
    reveal_strlit("JavaBridge");
    reveal_strlit("Jit thread pool");
    reveal_strlit("Job.[Ww]orker*");
    reveal_strlit("JobThread*");
    reveal_strlit("LogAppendWork");
    reveal_strlit("LogicThread");
    reveal_strlit("Lynx_JS");
    reveal_strlit("MainThread");
    reveal_strlit("MainThread*");
    reveal_strlit("Mainloop");
    reveal_strlit("MediaCodec*");
    reveal_strlit("MiniRainbowMain");
    reveal_strlit("MiniRenderThrea");
    reveal_strlit("NativeThread*");
    reveal_strlit("NetworkService");
    reveal_strlit("OkHttp*");
    reveal_strlit("PakMergeThread");
    reveal_strlit("Phenix-Schedule");
    reveal_strlit("PoolThread*");
    reveal_strlit("RHIThread");
    reveal_strlit("RHIThread*");
    reveal_strlit("RenderEngine");
    reveal_strlit("RenderThread");
    reveal_strlit("RenderThread*");
    reveal_strlit("RenderingThread");
    reveal_strlit("RxCachedThreadS");
    reveal_strlit("ShaderCompiling");
    reveal_strlit("Shared_w*");
    reveal_strlit("Socket Thread");
    reveal_strlit("SoundPool*");
    reveal_strlit("Task*");
    reveal_strlit("TaskGraph*");
    reveal_strlit("Thread-*");
    reveal_strlit("ThreadPool*");
    reveal_strlit("ThreadPoolForeg");
    reveal_strlit("ThreadPoolForeg*");
    reveal_strlit("ThreadPoolServi*");
    reveal_strlit("ThumbnailStorag");
    reveal_strlit("UEGameThread");
    reveal_strlit("UnityChoreo");
    reveal_strlit("UnityChoreo*");
    reveal_strlit("UnityChoreograp*");
    reveal_strlit("UnityGfx*");
    reveal_strlit("UnityGfxDeviceW");
    reveal_strlit("UnityMain");
    reveal_strlit("UnityMultiRende*");
    reveal_strlit("UnityPreload");
    reveal_strlit("UnityPreload*");
    reveal_strlit("VCMainThread");
    reveal_strlit("VDecod*");
    reveal_strlit("VOutle*");
    reveal_strlit("VizCompositor");
    reveal_strlit("VizWebView");
    reveal_strlit("VulkanRenderMan");
    reveal_strlit("Web Content");
    reveal_strlit("Worker Thread");
    reveal_strlit("[Bb]inder:*");
    reveal_strlit("alsoft-mixer");
    reveal_strlit("arch_disk*");
    reveal_strlit("arch_disk_*");
    reveal_strlit("beacon-thread-*");
    reveal_strlit("binder:*");
    reveal_strlit("cached-pool-*");
    reveal_strlit("fileUploadQueue");
    reveal_strlit("files_database*");
    reveal_strlit("glide*");
    reveal_strlit("glide-*");
    reveal_strlit("hwui*");
    reveal_strlit("hwuiTask*");
    reveal_strlit("ijk_dash_pool_*");
    reveal_strlit("io.worker*");
    reveal_strlit("ledThreadPool-*");
    reveal_strlit("looper_monitor");
    reveal_strlit("main");
    reveal_strlit("mali-*");
    reveal_strlit("mpv/*");
    reveal_strlit("mqt_*");
    reveal_strlit("onPool-worker-*");
    reveal_strlit("pivotal-pool-*");
    reveal_strlit("pool-[0-9]*-thread*");
    reveal_strlit("rx-pool-*");
    reveal_strlit("searchQueue");
    reveal_strlit("stageQueue*");
    reveal_strlit("storageQueue*");
    reveal_strlit("vrpool-*");
    assert("*Dispatcher"@ =~= seq!['*'] + "Dispatcher"@);
    assert(is_literal("Dispatcher"@));
    let name = "ThreadPoolForeg"@ + suffix;
    if !"Dispatcher"@.is_suffix_of(name) {
        assert(name[0] == 'T' && name[1] == 'h' && name[2] == 'r' && name[3] == 'e' && name[4] == 'a' && name[5] == 'd' && name[6] == 'P');
        law_star_literal_suffix("Dispatcher"@, name);
        assert forall|j: int| 0 <= j < rs.len() && rs[j].priority == 100 implies #[trigger] rs[
            j
        ].pattern != name by {
            let p = rs[j].pattern;
            assert(p == name ==> p[0] == name[0] && p[1] == name[1] && p[2] == name[2]);
        }
        assert forall|j: int| 0 <= j < 122 && rs[j].priority == 50 implies !glob_spec(
            #[trigger] rs[j].pattern,
            name,
        ) by {
            let p = rs[j].pattern;
            if p[0] == '*' {
                assert(p == "*Dispatcher"@);
            } else if p[0] == '[' {
                lemma_pair_class_rejects(p, name);
            } else if p[0] == '?' || p[0] != name[0] || p[1] != name[1] {
                if p[0] == '?' || p[0] == name[0] {
                    lemma_literal_mismatch(p, name, 1);
                } else {
                    lemma_literal_mismatch(p, name, 0);
                }
            } else {
                lemma_literal_mismatch(p, name, 6);
            }
        }
        assert("ThreadPoolForeg*"@ =~= "ThreadPoolForeg"@.push('*'));
        assert(name.subrange(0, 15) =~= "ThreadPoolForeg"@);
        law_literal_prefix_star("ThreadPoolForeg"@, name);
        lemma_wildcard_entry_wins(name, 122);
    }
    let name = "FMOD"@ + suffix;
    if !"Dispatcher"@.is_suffix_of(name) {
        assert(name[0] == 'F' && name[1] == 'M' && name[2] == 'O' && name[3] == 'D');
        law_star_literal_suffix("Dispatcher"@, name);
        assert forall|j: int| 0 <= j < rs.len() && rs[j].priority == 100 implies #[trigger] rs[
            j
        ].pattern != name by {
            let p = rs[j].pattern;
            assert(p == name ==> p[0] == name[0] && p[1] == name[1] && p[2] == name[2] && p[3] == name[3] && p[4] == name[4] && p[5] == name[5]);
        }
        assert forall|j: int| 0 <= j < 133 && rs[j].priority == 50 implies !glob_spec(
            #[trigger] rs[j].pattern,
            name,
        ) by {
            let p = rs[j].pattern;
            if p[0] == '*' {
                assert(p == "*Dispatcher"@);
            } else if p[0] == '[' {
                lemma_pair_class_rejects(p, name);
            } else if p[0] == '?' || p[0] != name[0] || p[1] != name[1] {
                if p[0] == '?' || p[0] == name[0] {
                    lemma_literal_mismatch(p, name, 1);
                } else {
                    lemma_literal_mismatch(p, name, 0);
                }
            } else {
                lemma_literal_mismatch(p, name, 1);
            }
        }
        lemma_literal_mismatch(rs[135].pattern, name, 0);
        lemma_literal_mismatch(rs[136].pattern, name, 0);
        if glob_spec(rs[133].pattern, name) {
            lemma_wildcard_entry_wins(name, 133);
        } else if glob_spec(rs[134].pattern, name) {
            lemma_wildcard_entry_wins(name, 134);
        } else if glob_spec(rs[137].pattern, name) {
            lemma_wildcard_entry_wins(name, 137);
        } else {
            assert("FMOD*"@ =~= "FMOD"@.push('*'));
            assert(name.subrange(0, 4) =~= "FMOD"@);
            law_literal_prefix_star("FMOD"@, name);
            lemma_wildcard_entry_wins(name, 138);
        }
    }
    let name = "UnityChoreo"@ + suffix;
    if !"Dispatcher"@.is_suffix_of(name) {
        assert(name[0] == 'U' && name[1] == 'n' && name[2] == 'i' && name[3] == 't' && name[4] == 'y' && name[5] == 'C');
        law_star_literal_suffix("Dispatcher"@, name);
        assert forall|j: int| 0 <= j < rs.len() && rs[j].priority == 100 implies #[trigger] rs[
            j
        ].pattern != name by {
            let p = rs[j].pattern;
            assert(p == name ==> p[0] == name[0] && p[1] == name[1] && p[2] == name[2] && p[3] == name[3] && p[4] == name[4] && p[5] == name[5]);
        }
        assert forall|j: int| 0 <= j < 133 && rs[j].priority == 50 implies !glob_spec(
            #[trigger] rs[j].pattern,
            name,
        ) by {
            let p = rs[j].pattern;
            if p[0] == '*' {
                assert(p == "*Dispatcher"@);
            } else if p[0] == '[' {
                lemma_pair_class_rejects(p, name);
            } else if p[0] == '?' || p[0] != name[0] || p[1] != name[1] {
                if p[0] == '?' || p[0] == name[0] {
                    lemma_literal_mismatch(p, name, 1);
                } else {
                    lemma_literal_mismatch(p, name, 0);
                }
            } else {
                lemma_literal_mismatch(p, name, 5);
            }
        }
        lemma_literal_mismatch(rs[135].pattern, name, 0);
        lemma_literal_mismatch(rs[136].pattern, name, 0);
        if glob_spec(rs[133].pattern, name) {
            lemma_wildcard_entry_wins(name, 133);
        } else if glob_spec(rs[134].pattern, name) {
            lemma_wildcard_entry_wins(name, 134);
        } else if glob_spec(rs[137].pattern, name) {
            lemma_wildcard_entry_wins(name, 137);
        } else if glob_spec(rs[142].pattern, name) {
            lemma_wildcard_entry_wins(name, 142);
        } else {
            assert("UnityChoreo*"@ =~= "UnityChoreo"@.push('*'));
            assert(name.subrange(0, 11) =~= "UnityChoreo"@);
            law_literal_prefix_star("UnityChoreo"@, name);
            lemma_wildcard_entry_wins(name, 143);
        }
    }
}

/// One thread name for each wildcard entry of the built-in table that sends
/// threads to the big and prime cores, with the entry it falls under:
/// `GLThread1` (`GLThread*`), `arch_disk1` (`arch_disk*`),
/// `files_database1` (`files_database*`), `stageQueue1` (`stageQueue*`), `VDecod1` (`VDecod*`),
/// `IOThread1` (`IOThread*`).
#[verifier::spinoff_prover]
#[verifier::rlimit(80)]
pub proof fn law_big_and_prime_wildcard_names()
    ensures
        classify_spec(builtin_rules(), "GLThread1"@) == CoreTarget::BigAndPrime,
        classify_spec(builtin_rules(), "arch_disk1"@) == CoreTarget::BigAndPrime,
        classify_spec(builtin_rules(), "files_database1"@) == CoreTarget::BigAndPrime,
        classify_spec(builtin_rules(), "stageQueue1"@) == CoreTarget::BigAndPrime,
        classify_spec(builtin_rules(), "VDecod1"@) == CoreTarget::BigAndPrime,
        classify_spec(builtin_rules(), "IOThread1"@) == CoreTarget::BigAndPrime,
{
    let rs = builtin_rules();
    reveal_strlit("*Dispatcher");
    reveal_strlit("1.raster");
    reveal_strlit("1.ui");
    reveal_strlit("2.ui");
    reveal_strlit("?.raster");
    reveal_strlit("?.ui");
    reveal_strlit("AILocalThread");
    reveal_strlit("APM_light-weigh");
    reveal_strlit("AndroidRender");
    reveal_strlit("AndroidUI");
    reveal_strlit("AnimationThread");
    reveal_strlit("AsyncTask*");
    reveal_strlit("AudioThread");
    reveal_strlit("AudioTrack");
    reveal_strlit("CallbackHndlr");
    reveal_strlit("Chrome_ChildIOT");
    reveal_strlit("Chrome_IOThread");
    reveal_strlit("Chrome_InProcGp");
    reveal_strlit("Chrome_InProcRe");
    reveal_strlit("Compositor");
    reveal_strlit("CoreThread");
    reveal_strlit("CrRendererMain");
    reveal_strlit("DefaultDispatch");
    reveal_strlit("DefaultExecutor");
    reveal_strlit("DispatchQueuePo");
    reveal_strlit("Dispatcher");
    reveal_strlit("GLThread");
    reveal_strlit("GLThread*");
    reveal_strlit("GLThread1");
    reveal_strlit("GPM-DataThread");
    reveal_strlit("GameThread");
    reveal_strlit("Game[0-9]*");
    reveal_strlit("GcamViewfinder");
    reveal_strlit("Gecko");
    reveal_strlit("HeapTaskDaemon");
    reveal_strlit("IL2CPP*");
    reveal_strlit("IOThread");
    reveal_strlit("IOThread*");
    reveal_strlit("IOThread1");
    reveal_strlit("InputDispatcher");
    reveal_strlit("InsetsAnimation");
    reveal_strlit("JNISurfaceTextu");
    reveal_strlit("JavaBridge");
    reveal_strlit("Jit thread pool");
    reveal_strlit("LogAppendWork");
    reveal_strlit("LogicThread");
    reveal_strlit("Lynx_JS");
    reveal_strlit("MainThread");
    reveal_strlit("Mainloop");
    reveal_strlit("MiniRainbowMain");
    reveal_strlit("MiniRenderThrea");
    reveal_strlit("NetworkService");
    reveal_strlit("PakMergeThread");
    reveal_strlit("Phenix-Schedule");
    reveal_strlit("RHIThread");
    reveal_strlit("RenderEngine");
    reveal_strlit("RenderThread");
    reveal_strlit("RenderingThread");
    reveal_strlit("RxCachedThreadS");
    reveal_strlit("ShaderCompiling");
    reveal_strlit("Socket Thread");
    reveal_strlit("ThumbnailStorag");
    reveal_strlit("UEGameThread");
    reveal_strlit("UnityGfxDeviceW");
    reveal_strlit("UnityMain");
    reveal_strlit("UnityPreload");
    reveal_strlit("VCMainThread");
    reveal_strlit("VDecod");
    reveal_strlit("VDecod*");
    reveal_strlit("VDecod1");
    reveal_strlit("VizWebView");
    reveal_strlit("VulkanRenderMan");
    reveal_strlit("Web Content");
    reveal_strlit("Worker Thread");
    reveal_strlit("alsoft-mixer");
    reveal_strlit("arch_disk");
    reveal_strlit("arch_disk*");
    reveal_strlit("arch_disk1");
    reveal_strlit("arch_disk_*");
    reveal_strlit("fileUploadQueue");
    reveal_strlit("files_database");
    reveal_strlit("files_database*");
    reveal_strlit("files_database1");
    reveal_strlit("glide*");
    reveal_strlit("glide-*");
    reveal_strlit("looper_monitor");
    reveal_strlit("main");
    reveal_strlit("mqt_*");
    reveal_strlit("searchQueue");
    reveal_strlit("stageQueue");
    reveal_strlit("stageQueue*");
    reveal_strlit("stageQueue1");
    assert("*Dispatcher"@ =~= seq!['*'] + "Dispatcher"@);
    assert(is_literal("Dispatcher"@));
    assert(classify_spec(rs, "GLThread1"@) == CoreTarget::BigAndPrime) by {
        let name = "GLThread1"@;
        assert(name.len() == 9);
        assert forall|j: int| 0 <= j < rs.len() && rs[j].priority == 100 implies #[trigger] rs[
            j
        ].pattern != name by {
            let p = rs[j].pattern;
            assert(p == name ==> p.len() == 9 && p[0] == name[0] && p[1] == name[1] && p[2] == name[2] && p[3] == name[3] && p[4] == name[4] && p[5] == name[5] && p[6] == name[6] && p[7] == name[7] && p[8] == name[8]);
        }
        assert forall|j: int| 0 <= j < 21 && rs[j].priority == 50 implies !glob_spec(
            #[trigger] rs[j].pattern,
            name,
        ) by {
            let p = rs[j].pattern;
            if p[0] == '*' {
                assert(p == "*Dispatcher"@);
            } else if p[0] != name[0] && p[0] != '?' {
                lemma_literal_mismatch(p, name, 0);
            }
        }
        assert("GLThread*"@ =~= "GLThread"@.push('*'));
        assert(name.subrange(0, 8) =~= "GLThread"@);
        law_literal_prefix_star("GLThread"@, name);
        lemma_wildcard_entry_wins(name, 21);
    }
    assert(classify_spec(rs, "arch_disk1"@) == CoreTarget::BigAndPrime) by {
        let name = "arch_disk1"@;
        assert(name.len() == 10);
        assert forall|j: int| 0 <= j < rs.len() && rs[j].priority == 100 implies #[trigger] rs[
            j
        ].pattern != name by {
            let p = rs[j].pattern;
            assert(p == name ==> p.len() == 10 && p[0] == name[0] && p[1] == name[1] && p[2] == name[2] && p[3] == name[3] && p[4] == name[4] && p[5] == name[5] && p[6] == name[6] && p[7] == name[7] && p[8] == name[8] && p[9] == name[9]);
        }
        assert forall|j: int| 0 <= j < 36 && rs[j].priority == 50 implies !glob_spec(
            #[trigger] rs[j].pattern,
            name,
        ) by {
            let p = rs[j].pattern;
            if p[0] == '*' {
                assert(p == "*Dispatcher"@);
            } else if p[0] != name[0] && p[0] != '?' {
                lemma_literal_mismatch(p, name, 0);
            } else if p[1] != name[1] && p[1] != '?' {
                lemma_literal_mismatch(p, name, 1);
            } else if p[2] != name[2] && p[2] != '?' {
                lemma_literal_mismatch(p, name, 2);
            } else if p[3] != name[3] && p[3] != '?' {
                lemma_literal_mismatch(p, name, 3);
            } else if p[4] != name[4] && p[4] != '?' {
                lemma_literal_mismatch(p, name, 4);
            } else if p[5] != name[5] && p[5] != '?' {
                lemma_literal_mismatch(p, name, 5);
            } else if p[6] != name[6] && p[6] != '?' {
                lemma_literal_mismatch(p, name, 6);
            } else if p[7] != name[7] && p[7] != '?' {
                lemma_literal_mismatch(p, name, 7);
            } else if p[8] != name[8] && p[8] != '?' {
                lemma_literal_mismatch(p, name, 8);
            } else if p[9] != name[9] && p[9] != '?' {
                lemma_literal_mismatch(p, name, 9);
            }
        }
        assert("arch_disk*"@ =~= "arch_disk"@.push('*'));
        assert(name.subrange(0, 9) =~= "arch_disk"@);
        law_literal_prefix_star("arch_disk"@, name);
        lemma_wildcard_entry_wins(name, 36);
    }
    assert(classify_spec(rs, "files_database1"@) == CoreTarget::BigAndPrime) by {
        let name = "files_database1"@;
        assert(name.len() == 15);
        assert forall|j: int| 0 <= j < rs.len() && rs[j].priority == 100 implies #[trigger] rs[
            j
        ].pattern != name by {
            let p = rs[j].pattern;
            assert(p == name ==> p.len() == 15 && p[0] == name[0] && p[1] == name[1] && p[2] == name[2] && p[3] == name[3] && p[4] == name[4] && p[5] == name[5] && p[6] == name[6] && p[7] == name[7] && p[8] == name[8] && p[9] == name[9] && p[10] == name[10] && p[11] == name[11] && p[12] == name[12] && p[13] == name[13] && p[14] == name[14]);
        }
        law_star_literal_suffix("Dispatcher"@, name);
        assert(name.subrange(15 - 10, 15)[9] == name[14]);
        assert forall|j: int| 0 <= j < 39 && rs[j].priority == 50 implies !glob_spec(
            #[trigger] rs[j].pattern,
            name,
        ) by {
            let p = rs[j].pattern;
            if p[0] == '*' {
                assert(p == "*Dispatcher"@);
            } else if p[0] != name[0] && p[0] != '?' {
                lemma_literal_mismatch(p, name, 0);
            } else if p[1] != name[1] && p[1] != '?' {
                lemma_literal_mismatch(p, name, 1);
            }
        }
        assert("files_database*"@ =~= "files_database"@.push('*'));
        assert(name.subrange(0, 14) =~= "files_database"@);
        law_literal_prefix_star("files_database"@, name);
        lemma_wildcard_entry_wins(name, 39);
    }
    assert(classify_spec(rs, "stageQueue1"@) == CoreTarget::BigAndPrime) by {
        let name = "stageQueue1"@;
        assert(name.len() == 11);
        assert forall|j: int| 0 <= j < rs.len() && rs[j].priority == 100 implies #[trigger] rs[
            j
        ].pattern != name by {
            let p = rs[j].pattern;
            assert(p == name ==> p.len() == 11 && p[0] == name[0] && p[1] == name[1] && p[2] == name[2] && p[3] == name[3] && p[4] == name[4] && p[5] == name[5] && p[6] == name[6] && p[7] == name[7] && p[8] == name[8] && p[9] == name[9] && p[10] == name[10]);
        }
        law_star_literal_suffix("Dispatcher"@, name);
        assert(name.subrange(11 - 10, 11)[9] == name[10]);
        assert forall|j: int| 0 <= j < 41 && rs[j].priority == 50 implies !glob_spec(
            #[trigger] rs[j].pattern,
            name,
        ) by {
            let p = rs[j].pattern;
            if p[0] == '*' {
                assert(p == "*Dispatcher"@);
            } else if p[0] != name[0] && p[0] != '?' {
                lemma_literal_mismatch(p, name, 0);
            } else if p[1] != name[1] && p[1] != '?' {
                lemma_literal_mismatch(p, name, 1);
            }
        }
        assert("stageQueue*"@ =~= "stageQueue"@.push('*'));
        assert(name.subrange(0, 10) =~= "stageQueue"@);
        law_literal_prefix_star("stageQueue"@, name);
        lemma_wildcard_entry_wins(name, 41);
    }
    assert(classify_spec(rs, "VDecod1"@) == CoreTarget::BigAndPrime) by {
        let name = "VDecod1"@;
        assert(name.len() == 7);
        assert forall|j: int| 0 <= j < rs.len() && rs[j].priority == 100 implies #[trigger] rs[
            j
        ].pattern != name by {
            let p = rs[j].pattern;
            assert(p == name ==> p.len() == 7 && p[0] == name[0] && p[1] == name[1] && p[2] == name[2] && p[3] == name[3] && p[4] == name[4] && p[5] == name[5] && p[6] == name[6]);
        }
        law_star_literal_suffix("Dispatcher"@, name);
        assert(name.len() < 10);
        assert forall|j: int| 0 <= j < 43 && rs[j].priority == 50 implies !glob_spec(
            #[trigger] rs[j].pattern,
            name,
        ) by {
            let p = rs[j].pattern;
            if p[0] == '*' {
                assert(p == "*Dispatcher"@);
            } else if p[0] != name[0] && p[0] != '?' {
                lemma_literal_mismatch(p, name, 0);
            } else if p[1] != name[1] && p[1] != '?' {
                lemma_literal_mismatch(p, name, 1);
            }
        }
        assert("VDecod*"@ =~= "VDecod"@.push('*'));
        assert(name.subrange(0, 6) =~= "VDecod"@);
        law_literal_prefix_star("VDecod"@, name);
        lemma_wildcard_entry_wins(name, 43);
    }
    assert(classify_spec(rs, "IOThread1"@) == CoreTarget::BigAndPrime) by {
        let name = "IOThread1"@;
        assert(name.len() == 9);
        assert forall|j: int| 0 <= j < rs.len() && rs[j].priority == 100 implies #[trigger] rs[
            j
        ].pattern != name by {
            let p = rs[j].pattern;
            assert(p == name ==> p.len() == 9 && p[0] == name[0] && p[1] == name[1] && p[2] == name[2] && p[3] == name[3] && p[4] == name[4] && p[5] == name[5] && p[6] == name[6] && p[7] == name[7] && p[8] == name[8]);
        }
        law_star_literal_suffix("Dispatcher"@, name);
        assert(name.len() < 10);
        assert forall|j: int| 0 <= j < 47 && rs[j].priority == 50 implies !glob_spec(
            #[trigger] rs[j].pattern,
            name,
        ) by {
            let p = rs[j].pattern;
            if p[0] == '*' {
                assert(p == "*Dispatcher"@);
            } else if p[0] != name[0] && p[0] != '?' {
                lemma_literal_mismatch(p, name, 0);
            } else if p[1] != name[1] && p[1] != '?' {
                lemma_literal_mismatch(p, name, 1);
            }
        }
        assert("IOThread*"@ =~= "IOThread"@.push('*'));
        assert(name.subrange(0, 8) =~= "IOThread"@);
        law_literal_prefix_star("IOThread"@, name);
        lemma_wildcard_entry_wins(name, 47);
    }
}

/// One thread name for each wildcard entry of the built-in table for GPU,
/// render and engine helpers that go to the big cores, with its entry:
/// `mali-1` (`mali-*`), `RenderThread1` (`RenderThread*`), `hwuiTask1` (`hwuiTask*`),
/// `hwui1` (`hwui*`), `UnityPreload1` (`UnityPreload*`),
/// `UnityMultiRende1` (`UnityMultiRende*`), `RHIThread1` (`RHIThread*`),
/// `TaskGraph1` (`TaskGraph*`), `DartWorker1` (`DartWorker*`).
#[verifier::spinoff_prover]
#[verifier::rlimit(80)]
pub proof fn law_big_wildcard_names_graphics()
    ensures
        classify_spec(builtin_rules(), "mali-1"@) == CoreTarget::Big,
        classify_spec(builtin_rules(), "RenderThread1"@) == CoreTarget::Big,
        classify_spec(builtin_rules(), "hwuiTask1"@) == CoreTarget::Big,
        classify_spec(builtin_rules(), "hwui1"@) == CoreTarget::Big,
        classify_spec(builtin_rules(), "UnityPreload1"@) == CoreTarget::Big,
        classify_spec(builtin_rules(), "UnityMultiRende1"@) == CoreTarget::Big,
        classify_spec(builtin_rules(), "RHIThread1"@) == CoreTarget::Big,
        classify_spec(builtin_rules(), "TaskGraph1"@) == CoreTarget::Big,
        classify_spec(builtin_rules(), "DartWorker1"@) == CoreTarget::Big,
{
    let rs = builtin_rules();
    reveal_strlit("*Dispatcher");
    reveal_strlit("1.raster");
    reveal_strlit("1.ui");
    reveal_strlit("2.ui");
    reveal_strlit("?.raster");
    reveal_strlit("?.ui");
    reveal_strlit("AILocalThread");
    reveal_strlit("APM_light-weigh");
    reveal_strlit("AndroidRender");
    reveal_strlit("AndroidUI");
    reveal_strlit("AnimationThread");
    reveal_strlit("AsyncTask*");
    reveal_strlit("AudioThread");
    reveal_strlit("AudioTrack");
    reveal_strlit("CallbackHndlr");
    reveal_strlit("Chrome_ChildIOT");
    reveal_strlit("Chrome_IOThread");
    reveal_strlit("Chrome_InProcGp");
    reveal_strlit("Chrome_InProcRe");
    reveal_strlit("Compositor");
    reveal_strlit("CoreThread");
    reveal_strlit("CrRendererMain");
    reveal_strlit("DartWorker");
    reveal_strlit("DartWorker*");
    reveal_strlit("DartWorker1");
    reveal_strlit("DefaultDispatch");
    reveal_strlit("DefaultExecutor");
    reveal_strlit("DispatchQueuePo");
    reveal_strlit("Dispatcher");
    reveal_strlit("GLThread*");
    reveal_strlit("GPM-DataThread");
    reveal_strlit("GameThread");
    reveal_strlit("Game[0-9]*");
    reveal_strlit("GcamViewfinder");
    reveal_strlit("Gecko");
    reveal_strlit("HeapTaskDaemon");
    reveal_strlit("IL2CPP*");
    reveal_strlit("IOThread*");
    reveal_strlit("InputDispatcher");
    reveal_strlit("InsetsAnimation");
    reveal_strlit("JNISurfaceTextu");
    reveal_strlit("JavaBridge");
    reveal_strlit("Jit thread pool");
    reveal_strlit("Job.[Ww]orker*");
    reveal_strlit("LogAppendWork");
    reveal_strlit("LogicThread");
    reveal_strlit("Lynx_JS");
    reveal_strlit("MainThread");
    reveal_strlit("Mainloop");
    reveal_strlit("MiniRainbowMain");
    reveal_strlit("MiniRenderThrea");
    reveal_strlit("NetworkService");
    reveal_strlit("PakMergeThread");
    reveal_strlit("Phenix-Schedule");
    reveal_strlit("RHIThread");
    reveal_strlit("RHIThread*");
    reveal_strlit("RHIThread1");
    reveal_strlit("RenderEngine");
    reveal_strlit("RenderThread");
    reveal_strlit("RenderThread*");
    reveal_strlit("RenderThread1");
    reveal_strlit("RenderingThread");
    reveal_strlit("RxCachedThreadS");
    reveal_strlit("ShaderCompiling");
    reveal_strlit("Socket Thread");
    reveal_strlit("TaskGraph");
    reveal_strlit("TaskGraph*");
    reveal_strlit("TaskGraph1");
    reveal_strlit("ThumbnailStorag");
    reveal_strlit("UEGameThread");
    reveal_strlit("UnityGfx*");
    reveal_strlit("UnityGfxDeviceW");
    reveal_strlit("UnityMain");
    reveal_strlit("UnityMultiRende");
    reveal_strlit("UnityMultiRende*");
    reveal_strlit("UnityMultiRende1");
    reveal_strlit("UnityPreload");
    reveal_strlit("UnityPreload*");
    reveal_strlit("UnityPreload1");
    reveal_strlit("VCMainThread");
    reveal_strlit("VDecod*");
    reveal_strlit("VizCompositor");
    reveal_strlit("VizWebView");
    reveal_strlit("VulkanRenderMan");
    reveal_strlit("Web Content");
    reveal_strlit("Worker Thread");
    reveal_strlit("alsoft-mixer");
    reveal_strlit("arch_disk*");
    reveal_strlit("arch_disk_*");
    reveal_strlit("fileUploadQueue");
    reveal_strlit("files_database*");
    reveal_strlit("glide*");
    reveal_strlit("glide-*");
    reveal_strlit("hwui");
    reveal_strlit("hwui*");
    reveal_strlit("hwui1");
    reveal_strlit("hwuiTask");
    reveal_strlit("hwuiTask*");
    reveal_strlit("hwuiTask1");
    reveal_strlit("looper_monitor");
    reveal_strlit("main");
    reveal_strlit("mali-");
    reveal_strlit("mali-*");
    reveal_strlit("mali-1");
    reveal_strlit("mqt_*");
    reveal_strlit("searchQueue");
    reveal_strlit("stageQueue*");
    assert("*Dispatcher"@ =~= seq!['*'] + "Dispatcher"@);
    assert(is_literal("Dispatcher"@));
    assert(classify_spec(rs, "mali-1"@) == CoreTarget::Big) by {
        let name = "mali-1"@;
        assert(name.len() == 6);
        assert forall|j: int| 0 <= j < rs.len() && rs[j].priority == 100 implies #[trigger] rs[
            j
        ].pattern != name by {
            let p = rs[j].pattern;
            assert(p == name ==> p.len() == 6 && p[0] == name[0] && p[1] == name[1] && p[2] == name[2] && p[3] == name[3] && p[4] == name[4] && p[5] == name[5]);
        }
        law_star_literal_suffix("Dispatcher"@, name);
        assert(name.len() < 10);
        assert forall|j: int| 0 <= j < 51 && rs[j].priority == 50 implies !glob_spec(
            #[trigger] rs[j].pattern,
            name,
        ) by {
            let p = rs[j].pattern;
            if p[0] == '*' {
                assert(p == "*Dispatcher"@);
            } else if p[0] != name[0] && p[0] != '?' {
                lemma_literal_mismatch(p, name, 0);
            } else if p[1] != name[1] && p[1] != '?' {
                lemma_literal_mismatch(p, name, 1);
            }
        }
        assert("mali-*"@ =~= "mali-"@.push('*'));
        assert(name.subrange(0, 5) =~= "mali-"@);
        law_literal_prefix_star("mali-"@, name);
        lemma_wildcard_entry_wins(name, 51);
    }
    assert(classify_spec(rs, "RenderThread1"@) == CoreTarget::Big) by {
        let name = "RenderThread1"@;
        assert(name.len() == 13);
        assert forall|j: int| 0 <= j < rs.len() && rs[j].priority == 100 implies #[trigger] rs[
            j
        ].pattern != name by {
            let p = rs[j].pattern;
            assert(p == name ==> p.len() == 13 && p[0] == name[0] && p[1] == name[1] && p[2] == name[2] && p[3] == name[3] && p[4] == name[4] && p[5] == name[5] && p[6] == name[6] && p[7] == name[7] && p[8] == name[8] && p[9] == name[9] && p[10] == name[10] && p[11] == name[11] && p[12] == name[12]);
        }
        law_star_literal_suffix("Dispatcher"@, name);
        assert(name.subrange(13 - 10, 13)[9] == name[12]);
        assert forall|j: int| 0 <= j < 52 && rs[j].priority == 50 implies !glob_spec(
            #[trigger] rs[j].pattern,
            name,
        ) by {
            let p = rs[j].pattern;
            if p[0] == '*' {
                assert(p == "*Dispatcher"@);
            } else if p[0] != name[0] && p[0] != '?' {
                lemma_literal_mismatch(p, name, 0);
            } else if p[1] != name[1] && p[1] != '?' {
                lemma_literal_mismatch(p, name, 1);
            }
        }
        assert("RenderThread*"@ =~= "RenderThread"@.push('*'));
        assert(name.subrange(0, 12) =~= "RenderThread"@);
        law_literal_prefix_star("RenderThread"@, name);
        lemma_wildcard_entry_wins(name, 52);
    }
    assert(classify_spec(rs, "hwuiTask1"@) == CoreTarget::Big) by {
        let name = "hwuiTask1"@;
        assert(name.len() == 9);
        assert forall|j: int| 0 <= j < rs.len() && rs[j].priority == 100 implies #[trigger] rs[
            j
        ].pattern != name by {
            let p = rs[j].pattern;
            assert(p == name ==> p.len() == 9 && p[0] == name[0] && p[1] == name[1] && p[2] == name[2] && p[3] == name[3] && p[4] == name[4] && p[5] == name[5] && p[6] == name[6] && p[7] == name[7] && p[8] == name[8]);
        }
        law_star_literal_suffix("Dispatcher"@, name);
        assert(name.len() < 10);
        assert forall|j: int| 0 <= j < 53 && rs[j].priority == 50 implies !glob_spec(
            #[trigger] rs[j].pattern,
            name,
        ) by {
            let p = rs[j].pattern;
            if p[0] == '*' {
                assert(p == "*Dispatcher"@);
            } else if p[0] != name[0] && p[0] != '?' {
                lemma_literal_mismatch(p, name, 0);
            } else if p[1] != name[1] && p[1] != '?' {
                lemma_literal_mismatch(p, name, 1);
            }
        }
        assert("hwuiTask*"@ =~= "hwuiTask"@.push('*'));
        assert(name.subrange(0, 8) =~= "hwuiTask"@);
        law_literal_prefix_star("hwuiTask"@, name);
        lemma_wildcard_entry_wins(name, 53);
    }
    assert(classify_spec(rs, "hwui1"@) == CoreTarget::Big) by {
        let name = "hwui1"@;
        assert(name.len() == 5);
        assert forall|j: int| 0 <= j < rs.len() && rs[j].priority == 100 implies #[trigger] rs[
            j
        ].pattern != name by {
            let p = rs[j].pattern;
            assert(p == name ==> p.len() == 5 && p[0] == name[0] && p[1] == name[1] && p[2] == name[2] && p[3] == name[3] && p[4] == name[4]);
        }
        law_star_literal_suffix("Dispatcher"@, name);
        assert(name.len() < 10);
        assert forall|j: int| 0 <= j < 54 && rs[j].priority == 50 implies !glob_spec(
            #[trigger] rs[j].pattern,
            name,
        ) by {
            let p = rs[j].pattern;
            if p[0] == '*' {
                assert(p == "*Dispatcher"@);
            } else if p[0] != name[0] && p[0] != '?' {
                lemma_literal_mismatch(p, name, 0);
            } else if p[1] != name[1] && p[1] != '?' {
                lemma_literal_mismatch(p, name, 1);
            } else if p[2] != name[2] && p[2] != '?' {
                lemma_literal_mismatch(p, name, 2);
            } else if p[3] != name[3] && p[3] != '?' {
                lemma_literal_mismatch(p, name, 3);
            } else if p[4] != name[4] && p[4] != '?' {
                lemma_literal_mismatch(p, name, 4);
            }
        }
        assert("hwui*"@ =~= "hwui"@.push('*'));
        assert(name.subrange(0, 4) =~= "hwui"@);
        law_literal_prefix_star("hwui"@, name);
        lemma_wildcard_entry_wins(name, 54);
    }
    assert(classify_spec(rs, "UnityPreload1"@) == CoreTarget::Big) by {
        let name = "UnityPreload1"@;
        assert(name.len() == 13);
        assert forall|j: int| 0 <= j < rs.len() && rs[j].priority == 100 implies #[trigger] rs[
            j
        ].pattern != name by {
            let p = rs[j].pattern;
            assert(p == name ==> p.len() == 13 && p[0] == name[0] && p[1] == name[1] && p[2] == name[2] && p[3] == name[3] && p[4] == name[4] && p[5] == name[5] && p[6] == name[6] && p[7] == name[7] && p[8] == name[8] && p[9] == name[9] && p[10] == name[10] && p[11] == name[11] && p[12] == name[12]);
        }
        law_star_literal_suffix("Dispatcher"@, name);
        assert(name.subrange(13 - 10, 13)[9] == name[12]);
        assert forall|j: int| 0 <= j < 60 && rs[j].priority == 50 implies !glob_spec(
            #[trigger] rs[j].pattern,
            name,
        ) by {
            let p = rs[j].pattern;
            if p[0] == '*' {
                assert(p == "*Dispatcher"@);
            } else if p[0] != name[0] && p[0] != '?' {
                lemma_literal_mismatch(p, name, 0);
            } else if p[1] != name[1] && p[1] != '?' {
                lemma_literal_mismatch(p, name, 1);
            } else if p[2] != name[2] && p[2] != '?' {
                lemma_literal_mismatch(p, name, 2);
            } else if p[3] != name[3] && p[3] != '?' {
                lemma_literal_mismatch(p, name, 3);
            } else if p[4] != name[4] && p[4] != '?' {
                lemma_literal_mismatch(p, name, 4);
            } else if p[5] != name[5] && p[5] != '?' {
                lemma_literal_mismatch(p, name, 5);
            }
        }
        assert("UnityPreload*"@ =~= "UnityPreload"@.push('*'));
        assert(name.subrange(0, 12) =~= "UnityPreload"@);
        law_literal_prefix_star("UnityPreload"@, name);
        lemma_wildcard_entry_wins(name, 60);
    }
    assert(classify_spec(rs, "UnityMultiRende1"@) == CoreTarget::Big) by {
        let name = "UnityMultiRende1"@;
        assert(name.len() == 16);
        assert forall|j: int| 0 <= j < rs.len() && rs[j].priority == 100 implies #[trigger] rs[
            j
        ].pattern != name by {
            let p = rs[j].pattern;
            assert(p == name ==> p.len() == 16 && p[0] == name[0] && p[1] == name[1] && p[2] == name[2] && p[3] == name[3] && p[4] == name[4] && p[5] == name[5] && p[6] == name[6] && p[7] == name[7] && p[8] == name[8] && p[9] == name[9] && p[10] == name[10] && p[11] == name[11] && p[12] == name[12] && p[13] == name[13] && p[14] == name[14] && p[15] == name[15]);
        }
        law_star_literal_suffix("Dispatcher"@, name);
        assert(name.subrange(16 - 10, 16)[9] == name[15]);
        assert forall|j: int| 0 <= j < 61 && rs[j].priority == 50 implies !glob_spec(
            #[trigger] rs[j].pattern,
            name,
        ) by {
            let p = rs[j].pattern;
            if p[0] == '*' {
                assert(p == "*Dispatcher"@);
            } else if p[0] != name[0] && p[0] != '?' {
                lemma_literal_mismatch(p, name, 0);
            } else if p[1] != name[1] && p[1] != '?' {
                lemma_literal_mismatch(p, name, 1);
            } else if p[2] != name[2] && p[2] != '?' {
                lemma_literal_mismatch(p, name, 2);
            } else if p[3] != name[3] && p[3] != '?' {
                lemma_literal_mismatch(p, name, 3);
            } else if p[4] != name[4] && p[4] != '?' {
                lemma_literal_mismatch(p, name, 4);
            } else if p[5] != name[5] && p[5] != '?' {
                lemma_literal_mismatch(p, name, 5);
            }
        }
        assert("UnityMultiRende*"@ =~= "UnityMultiRende"@.push('*'));
        assert(name.subrange(0, 15) =~= "UnityMultiRende"@);
        law_literal_prefix_star("UnityMultiRende"@, name);
        lemma_wildcard_entry_wins(name, 61);
    }
    assert(classify_spec(rs, "RHIThread1"@) == CoreTarget::Big) by {
        let name = "RHIThread1"@;
        assert(name.len() == 10);
        assert forall|j: int| 0 <= j < rs.len() && rs[j].priority == 100 implies #[trigger] rs[
            j
        ].pattern != name by {
            let p = rs[j].pattern;
            assert(p == name ==> p.len() == 10 && p[0] == name[0] && p[1] == name[1] && p[2] == name[2] && p[3] == name[3] && p[4] == name[4] && p[5] == name[5] && p[6] == name[6] && p[7] == name[7] && p[8] == name[8] && p[9] == name[9]);
        }
        law_star_literal_suffix("Dispatcher"@, name);
        assert(name.subrange(10 - 10, 10)[9] == name[9]);
        assert forall|j: int| 0 <= j < 63 && rs[j].priority == 50 implies !glob_spec(
            #[trigger] rs[j].pattern,
            name,
        ) by {
            let p = rs[j].pattern;
            if p[0] == '*' {
                assert(p == "*Dispatcher"@);
            } else if p[0] != name[0] && p[0] != '?' {
                lemma_literal_mismatch(p, name, 0);
            } else if p[1] != name[1] && p[1] != '?' {
                lemma_literal_mismatch(p, name, 1);
            }
        }
        assert("RHIThread*"@ =~= "RHIThread"@.push('*'));
        assert(name.subrange(0, 9) =~= "RHIThread"@);
        law_literal_prefix_star("RHIThread"@, name);
        lemma_wildcard_entry_wins(name, 63);
    }
    assert(classify_spec(rs, "TaskGraph1"@) == CoreTarget::Big) by {
        let name = "TaskGraph1"@;
        assert(name.len() == 10);
        assert forall|j: int| 0 <= j < rs.len() && rs[j].priority == 100 implies #[trigger] rs[
            j
        ].pattern != name by {
            let p = rs[j].pattern;
            assert(p == name ==> p.len() == 10 && p[0] == name[0] && p[1] == name[1] && p[2] == name[2] && p[3] == name[3] && p[4] == name[4] && p[5] == name[5] && p[6] == name[6] && p[7] == name[7] && p[8] == name[8] && p[9] == name[9]);
        }
        law_star_literal_suffix("Dispatcher"@, name);
        assert(name.subrange(10 - 10, 10)[9] == name[9]);
        assert forall|j: int| 0 <= j < 64 && rs[j].priority == 50 implies !glob_spec(
            #[trigger] rs[j].pattern,
            name,
        ) by {
            let p = rs[j].pattern;
            if p[0] == '*' {
                assert(p == "*Dispatcher"@);
            } else if p[0] != name[0] && p[0] != '?' {
                lemma_literal_mismatch(p, name, 0);
            } else if p[1] != name[1] && p[1] != '?' {
                lemma_literal_mismatch(p, name, 1);
            }
        }
        assert("TaskGraph*"@ =~= "TaskGraph"@.push('*'));
        assert(name.subrange(0, 9) =~= "TaskGraph"@);
        law_literal_prefix_star("TaskGraph"@, name);
        lemma_wildcard_entry_wins(name, 64);
    }
    assert(classify_spec(rs, "DartWorker1"@) == CoreTarget::Big) by {
        let name = "DartWorker1"@;
        assert(name.len() == 11);
        assert forall|j: int| 0 <= j < rs.len() && rs[j].priority == 100 implies #[trigger] rs[
            j
        ].pattern != name by {
            let p = rs[j].pattern;
            assert(p == name ==> p.len() == 11 && p[0] == name[0] && p[1] == name[1] && p[2] == name[2] && p[3] == name[3] && p[4] == name[4] && p[5] == name[5] && p[6] == name[6] && p[7] == name[7] && p[8] == name[8] && p[9] == name[9] && p[10] == name[10]);
        }
        law_star_literal_suffix("Dispatcher"@, name);
        assert(name.subrange(11 - 10, 11)[9] == name[10]);
        assert forall|j: int| 0 <= j < 67 && rs[j].priority == 50 implies !glob_spec(
            #[trigger] rs[j].pattern,
            name,
        ) by {
            let p = rs[j].pattern;
            if p[0] == '*' {
                assert(p == "*Dispatcher"@);
            } else if p[0] != name[0] && p[0] != '?' {
                lemma_literal_mismatch(p, name, 0);
            } else if p[1] != name[1] && p[1] != '?' {
                lemma_literal_mismatch(p, name, 1);
            }
        }
        assert("DartWorker*"@ =~= "DartWorker"@.push('*'));
        assert(name.subrange(0, 10) =~= "DartWorker"@);
        law_literal_prefix_star("DartWorker"@, name);
        lemma_wildcard_entry_wins(name, 67);
    }
}

/// One thread name for each wildcard entry of the built-in table for
/// runtime, IPC and worker threads that go to the big cores, with its entry:
/// `ChromiumNet1` (`ChromiumNet*`), `IPC1` (`IPC*`), `IPDL1` (`IPDL*`),
/// `Thread-1` (`Thread-*`), `NativeThread1` (`NativeThread*`), `MainThread1` (`MainThread*`),
/// `Task1` (`Task*`), `JobThread1` (`JobThread*`), `PoolThread1` (`PoolThread*`).
#[verifier::spinoff_prover]
#[verifier::rlimit(80)]
pub proof fn law_big_wildcard_names_runtime()
    ensures
        classify_spec(builtin_rules(), "ChromiumNet1"@) == CoreTarget::Big,
        classify_spec(builtin_rules(), "IPC1"@) == CoreTarget::Big,
        classify_spec(builtin_rules(), "IPDL1"@) == CoreTarget::Big,
        classify_spec(builtin_rules(), "Thread-1"@) == CoreTarget::Big,
        classify_spec(builtin_rules(), "NativeThread1"@) == CoreTarget::Big,
        classify_spec(builtin_rules(), "MainThread1"@) == CoreTarget::Big,
        classify_spec(builtin_rules(), "Task1"@) == CoreTarget::Big,
        classify_spec(builtin_rules(), "JobThread1"@) == CoreTarget::Big,
        classify_spec(builtin_rules(), "PoolThread1"@) == CoreTarget::Big,
{
    let rs = builtin_rules();
    reveal_strlit("*Dispatcher");
    reveal_strlit("1.raster");
    reveal_strlit("1.ui");
    reveal_strlit("2.ui");
    reveal_strlit("?.io");
    reveal_strlit("?.raster");
    reveal_strlit("?.ui");
    reveal_strlit("AILocalThread");
    reveal_strlit("APM_light-weigh");
    reveal_strlit("AndroidRender");
    reveal_strlit("AndroidUI");
    reveal_strlit("AnimationThread");
    reveal_strlit("AsyncTask*");
    reveal_strlit("AudioThread");
    reveal_strlit("AudioTrack");
    reveal_strlit("CallbackHndlr");
    reveal_strlit("Chrome_ChildIOT");
    reveal_strlit("Chrome_IOThread");
    reveal_strlit("Chrome_InProcGp");
    reveal_strlit("Chrome_InProcRe");
    reveal_strlit("ChromiumNet");
    reveal_strlit("ChromiumNet*");
    reveal_strlit("ChromiumNet1");
    reveal_strlit("Compositor");
    reveal_strlit("CoreThread");
    reveal_strlit("CrRendererMain");
    reveal_strlit("DartWorker*");
    reveal_strlit("DefaultDispatch");
    reveal_strlit("DefaultExecutor");
    reveal_strlit("DispatchQueuePo");
    reveal_strlit("Dispatcher");
    reveal_strlit("GLThread*");
    reveal_strlit("GPM-DataThread");
    reveal_strlit("GameThread");
    reveal_strlit("Game[0-9]*");
    reveal_strlit("GcamViewfinder");
    reveal_strlit("Gecko");
    reveal_strlit("HeapTaskDaemon");
    reveal_strlit("IL2CPP*");
    reveal_strlit("IOThread*");
    reveal_strlit("IPC");
    reveal_strlit("IPC*");
    reveal_strlit("IPC1");
    reveal_strlit("IPDL");
    reveal_strlit("IPDL*");
    reveal_strlit("IPDL1");
    reveal_strlit("InputDispatcher");
    reveal_strlit("InsetsAnimation");
    reveal_strlit("JNISurfaceTextu");
    reveal_strlit("JavaBridge");
    reveal_strlit("Jit thread pool");
    reveal_strlit("Job.[Ww]orker*");
    reveal_strlit("JobThread");
    reveal_strlit("JobThread*");
    reveal_strlit("JobThread1");
    reveal_strlit("LogAppendWork");
    reveal_strlit("LogicThread");
    reveal_strlit("Lynx_JS");
    reveal_strlit("MainThread");
    reveal_strlit("MainThread*");
    reveal_strlit("MainThread1");
    reveal_strlit("Mainloop");
    reveal_strlit("MiniRainbowMain");
    reveal_strlit("MiniRenderThrea");
    reveal_strlit("NativeThread");
    reveal_strlit("NativeThread*");
    reveal_strlit("NativeThread1");
    reveal_strlit("NetworkService");
    reveal_strlit("PakMergeThread");
    reveal_strlit("Phenix-Schedule");
    reveal_strlit("PoolThread");
    reveal_strlit("PoolThread*");
    reveal_strlit("PoolThread1");
    reveal_strlit("RHIThread");
    reveal_strlit("RHIThread*");
    reveal_strlit("RenderEngine");
    reveal_strlit("RenderThread");
    reveal_strlit("RenderThread*");
    reveal_strlit("RenderingThread");
    reveal_strlit("RxCachedThreadS");
    reveal_strlit("ShaderCompiling");
    reveal_strlit("Socket Thread");
    reveal_strlit("Task");
    reveal_strlit("Task*");
    reveal_strlit("Task1");
    reveal_strlit("TaskGraph*");
    reveal_strlit("Thread-");
    reveal_strlit("Thread-*");
    reveal_strlit("Thread-1");
    reveal_strlit("ThumbnailStorag");
    reveal_strlit("UEGameThread");
    reveal_strlit("UnityGfx*");
    reveal_strlit("UnityGfxDeviceW");
    reveal_strlit("UnityMain");
    reveal_strlit("UnityMultiRende*");
    reveal_strlit("UnityPreload");
    reveal_strlit("UnityPreload*");
    reveal_strlit("VCMainThread");
    reveal_strlit("VDecod*");
    reveal_strlit("VizCompositor");
    reveal_strlit("VizWebView");
    reveal_strlit("VulkanRenderMan");
    reveal_strlit("Web Content");
    reveal_strlit("Worker Thread");
    reveal_strlit("alsoft-mixer");
    reveal_strlit("arch_disk*");
    reveal_strlit("arch_disk_*");
    reveal_strlit("fileUploadQueue");
    reveal_strlit("files_database*");
    reveal_strlit("glide*");
    reveal_strlit("glide-*");
    reveal_strlit("hwui*");
    reveal_strlit("hwuiTask*");
    reveal_strlit("looper_monitor");
    reveal_strlit("main");
    reveal_strlit("mali-*");
    reveal_strlit("mqt_*");
    reveal_strlit("searchQueue");
    reveal_strlit("stageQueue*");
    assert("*Dispatcher"@ =~= seq!['*'] + "Dispatcher"@);
    assert(is_literal("Dispatcher"@));
    assert(classify_spec(rs, "ChromiumNet1"@) == CoreTarget::Big) by {
        let name = "ChromiumNet1"@;
        assert(name.len() == 12);
        assert forall|j: int| 0 <= j < rs.len() && rs[j].priority == 100 implies #[trigger] rs[
            j
        ].pattern != name by {
            let p = rs[j].pattern;
            assert(p == name ==> p.len() == 12 && p[0] == name[0] && p[1] == name[1] && p[2] == name[2] && p[3] == name[3] && p[4] == name[4] && p[5] == name[5] && p[6] == name[6] && p[7] == name[7] && p[8] == name[8] && p[9] == name[9] && p[10] == name[10] && p[11] == name[11]);
        }
        law_star_literal_suffix("Dispatcher"@, name);
        assert(name.subrange(12 - 10, 12)[9] == name[11]);
        assert forall|j: int| 0 <= j < 73 && rs[j].priority == 50 implies !glob_spec(
            #[trigger] rs[j].pattern,
            name,
        ) by {
            let p = rs[j].pattern;
            if p[0] == '*' {
                assert(p == "*Dispatcher"@);
            } else if p[0] != name[0] && p[0] != '?' {
                lemma_literal_mismatch(p, name, 0);
            } else if p[1] != name[1] && p[1] != '?' {
                lemma_literal_mismatch(p, name, 1);
            }
        }
        assert("ChromiumNet*"@ =~= "ChromiumNet"@.push('*'));
        assert(name.subrange(0, 11) =~= "ChromiumNet"@);
        law_literal_prefix_star("ChromiumNet"@, name);
        lemma_wildcard_entry_wins(name, 73);
    }
    assert(classify_spec(rs, "IPC1"@) == CoreTarget::Big) by {
        let name = "IPC1"@;
        assert(name.len() == 4);
        assert forall|j: int| 0 <= j < rs.len() && rs[j].priority == 100 implies #[trigger] rs[
            j
        ].pattern != name by {
            let p = rs[j].pattern;
            assert(p == name ==> p.len() == 4 && p[0] == name[0] && p[1] == name[1] && p[2] == name[2] && p[3] == name[3]);
        }
        law_star_literal_suffix("Dispatcher"@, name);
        assert(name.len() < 10);
        assert forall|j: int| 0 <= j < 74 && rs[j].priority == 50 implies !glob_spec(
            #[trigger] rs[j].pattern,
            name,
        ) by {
            let p = rs[j].pattern;
            if p[0] == '*' {
                assert(p == "*Dispatcher"@);
            } else if p[0] != name[0] && p[0] != '?' {
                lemma_literal_mismatch(p, name, 0);
            } else if p[1] != name[1] && p[1] != '?' {
                lemma_literal_mismatch(p, name, 1);
            }
        }
        assert("IPC*"@ =~= "IPC"@.push('*'));
        assert(name.subrange(0, 3) =~= "IPC"@);
        law_literal_prefix_star("IPC"@, name);
        lemma_wildcard_entry_wins(name, 74);
    }
    assert(classify_spec(rs, "IPDL1"@) == CoreTarget::Big) by {
        let name = "IPDL1"@;
        assert(name.len() == 5);
        assert forall|j: int| 0 <= j < rs.len() && rs[j].priority == 100 implies #[trigger] rs[
            j
        ].pattern != name by {
            let p = rs[j].pattern;
            assert(p == name ==> p.len() == 5 && p[0] == name[0] && p[1] == name[1] && p[2] == name[2] && p[3] == name[3] && p[4] == name[4]);
        }
        law_star_literal_suffix("Dispatcher"@, name);
        assert(name.len() < 10);
        assert forall|j: int| 0 <= j < 75 && rs[j].priority == 50 implies !glob_spec(
            #[trigger] rs[j].pattern,
            name,
        ) by {
            let p = rs[j].pattern;
            if p[0] == '*' {
                assert(p == "*Dispatcher"@);
            } else if p[0] != name[0] && p[0] != '?' {
                lemma_literal_mismatch(p, name, 0);
            } else if p[1] != name[1] && p[1] != '?' {
                lemma_literal_mismatch(p, name, 1);
            } else if p[2] != name[2] && p[2] != '?' {
                lemma_literal_mismatch(p, name, 2);
            }
        }
        assert("IPDL*"@ =~= "IPDL"@.push('*'));
        assert(name.subrange(0, 4) =~= "IPDL"@);
        law_literal_prefix_star("IPDL"@, name);
        lemma_wildcard_entry_wins(name, 75);
    }
    assert(classify_spec(rs, "Thread-1"@) == CoreTarget::Big) by {
        let name = "Thread-1"@;
        assert(name.len() == 8);
        assert forall|j: int| 0 <= j < rs.len() && rs[j].priority == 100 implies #[trigger] rs[
            j
        ].pattern != name by {
            let p = rs[j].pattern;
            assert(p == name ==> p.len() == 8 && p[0] == name[0] && p[1] == name[1] && p[2] == name[2] && p[3] == name[3] && p[4] == name[4] && p[5] == name[5] && p[6] == name[6] && p[7] == name[7]);
        }
        law_star_literal_suffix("Dispatcher"@, name);
        assert(name.len() < 10);
        assert forall|j: int| 0 <= j < 77 && rs[j].priority == 50 implies !glob_spec(
            #[trigger] rs[j].pattern,
            name,
        ) by {
            let p = rs[j].pattern;
            if p[0] == '*' {
                assert(p == "*Dispatcher"@);
            } else if p[0] != name[0] && p[0] != '?' {
                lemma_literal_mismatch(p, name, 0);
            } else if p[1] != name[1] && p[1] != '?' {
                lemma_literal_mismatch(p, name, 1);
            }
        }
        assert("Thread-*"@ =~= "Thread-"@.push('*'));
        assert(name.subrange(0, 7) =~= "Thread-"@);
        law_literal_prefix_star("Thread-"@, name);
        lemma_wildcard_entry_wins(name, 77);
    }
    assert(classify_spec(rs, "NativeThread1"@) == CoreTarget::Big) by {
        let name = "NativeThread1"@;
        assert(name.len() == 13);
        assert forall|j: int| 0 <= j < rs.len() && rs[j].priority == 100 implies #[trigger] rs[
            j
        ].pattern != name by {
            let p = rs[j].pattern;
            assert(p == name ==> p.len() == 13 && p[0] == name[0] && p[1] == name[1] && p[2] == name[2] && p[3] == name[3] && p[4] == name[4] && p[5] == name[5] && p[6] == name[6] && p[7] == name[7] && p[8] == name[8] && p[9] == name[9] && p[10] == name[10] && p[11] == name[11] && p[12] == name[12]);
        }
        law_star_literal_suffix("Dispatcher"@, name);
        assert(name.subrange(13 - 10, 13)[9] == name[12]);
        assert forall|j: int| 0 <= j < 78 && rs[j].priority == 50 implies !glob_spec(
            #[trigger] rs[j].pattern,
            name,
        ) by {
            let p = rs[j].pattern;
            if p[0] == '*' {
                assert(p == "*Dispatcher"@);
            } else if p[0] != name[0] && p[0] != '?' {
                lemma_literal_mismatch(p, name, 0);
            } else if p[1] != name[1] && p[1] != '?' {
                lemma_literal_mismatch(p, name, 1);
            }
        }
        assert("NativeThread*"@ =~= "NativeThread"@.push('*'));
        assert(name.subrange(0, 12) =~= "NativeThread"@);
        law_literal_prefix_star("NativeThread"@, name);
        lemma_wildcard_entry_wins(name, 78);
    }
    assert(classify_spec(rs, "MainThread1"@) == CoreTarget::Big) by {
        let name = "MainThread1"@;
        assert(name.len() == 11);
        assert forall|j: int| 0 <= j < rs.len() && rs[j].priority == 100 implies #[trigger] rs[
            j
        ].pattern != name by {
            let p = rs[j].pattern;
            assert(p == name ==> p.len() == 11 && p[0] == name[0] && p[1] == name[1] && p[2] == name[2] && p[3] == name[3] && p[4] == name[4] && p[5] == name[5] && p[6] == name[6] && p[7] == name[7] && p[8] == name[8] && p[9] == name[9] && p[10] == name[10]);
        }
        law_star_literal_suffix("Dispatcher"@, name);
        assert(name.subrange(11 - 10, 11)[9] == name[10]);
        assert forall|j: int| 0 <= j < 79 && rs[j].priority == 50 implies !glob_spec(
            #[trigger] rs[j].pattern,
            name,
        ) by {
            let p = rs[j].pattern;
            if p[0] == '*' {
                assert(p == "*Dispatcher"@);
            } else if p[0] != name[0] && p[0] != '?' {
                lemma_literal_mismatch(p, name, 0);
            } else if p[1] != name[1] && p[1] != '?' {
                lemma_literal_mismatch(p, name, 1);
            }
        }
        assert("MainThread*"@ =~= "MainThread"@.push('*'));
        assert(name.subrange(0, 10) =~= "MainThread"@);
        law_literal_prefix_star("MainThread"@, name);
        lemma_wildcard_entry_wins(name, 79);
    }
    assert(classify_spec(rs, "Task1"@) == CoreTarget::Big) by {
        let name = "Task1"@;
        assert(name.len() == 5);
        assert forall|j: int| 0 <= j < rs.len() && rs[j].priority == 100 implies #[trigger] rs[
            j
        ].pattern != name by {
            let p = rs[j].pattern;
            assert(p == name ==> p.len() == 5 && p[0] == name[0] && p[1] == name[1] && p[2] == name[2] && p[3] == name[3] && p[4] == name[4]);
        }
        law_star_literal_suffix("Dispatcher"@, name);
        assert(name.len() < 10);
        assert forall|j: int| 0 <= j < 83 && rs[j].priority == 50 implies !glob_spec(
            #[trigger] rs[j].pattern,
            name,
        ) by {
            let p = rs[j].pattern;
            if p[0] == '*' {
                assert(p == "*Dispatcher"@);
            } else if p[0] != name[0] && p[0] != '?' {
                lemma_literal_mismatch(p, name, 0);
            } else if p[1] != name[1] && p[1] != '?' {
                lemma_literal_mismatch(p, name, 1);
            } else if p[2] != name[2] && p[2] != '?' {
                lemma_literal_mismatch(p, name, 2);
            } else if p[3] != name[3] && p[3] != '?' {
                lemma_literal_mismatch(p, name, 3);
            } else if p[4] != name[4] && p[4] != '?' {
                lemma_literal_mismatch(p, name, 4);
            }
        }
        assert("Task*"@ =~= "Task"@.push('*'));
        assert(name.subrange(0, 4) =~= "Task"@);
        law_literal_prefix_star("Task"@, name);
        lemma_wildcard_entry_wins(name, 83);
    }
    assert(classify_spec(rs, "JobThread1"@) == CoreTarget::Big) by {
        let name = "JobThread1"@;
        assert(name.len() == 10);
        assert forall|j: int| 0 <= j < rs.len() && rs[j].priority == 100 implies #[trigger] rs[
            j
        ].pattern != name by {
            let p = rs[j].pattern;
            assert(p == name ==> p.len() == 10 && p[0] == name[0] && p[1] == name[1] && p[2] == name[2] && p[3] == name[3] && p[4] == name[4] && p[5] == name[5] && p[6] == name[6] && p[7] == name[7] && p[8] == name[8] && p[9] == name[9]);
        }
        law_star_literal_suffix("Dispatcher"@, name);
        assert(name.subrange(10 - 10, 10)[9] == name[9]);
        assert forall|j: int| 0 <= j < 84 && rs[j].priority == 50 implies !glob_spec(
            #[trigger] rs[j].pattern,
            name,
        ) by {
            let p = rs[j].pattern;
            if p[0] == '*' {
                assert(p == "*Dispatcher"@);
            } else if p[0] != name[0] && p[0] != '?' {
                lemma_literal_mismatch(p, name, 0);
            } else if p[1] != name[1] && p[1] != '?' {
                lemma_literal_mismatch(p, name, 1);
            } else if p[2] != name[2] && p[2] != '?' {
                lemma_literal_mismatch(p, name, 2);
            } else if p[3] != name[3] && p[3] != '?' {
                lemma_literal_mismatch(p, name, 3);
            }
        }
        assert("JobThread*"@ =~= "JobThread"@.push('*'));
        assert(name.subrange(0, 9) =~= "JobThread"@);
        law_literal_prefix_star("JobThread"@, name);
        lemma_wildcard_entry_wins(name, 84);
    }
    assert(classify_spec(rs, "PoolThread1"@) == CoreTarget::Big) by {
        let name = "PoolThread1"@;
        assert(name.len() == 11);
        assert forall|j: int| 0 <= j < rs.len() && rs[j].priority == 100 implies #[trigger] rs[
            j
        ].pattern != name by {
            let p = rs[j].pattern;
            assert(p == name ==> p.len() == 11 && p[0] == name[0] && p[1] == name[1] && p[2] == name[2] && p[3] == name[3] && p[4] == name[4] && p[5] == name[5] && p[6] == name[6] && p[7] == name[7] && p[8] == name[8] && p[9] == name[9] && p[10] == name[10]);
        }
        law_star_literal_suffix("Dispatcher"@, name);
        assert(name.subrange(11 - 10, 11)[9] == name[10]);
        assert forall|j: int| 0 <= j < 85 && rs[j].priority == 50 implies !glob_spec(
            #[trigger] rs[j].pattern,
            name,
        ) by {
            let p = rs[j].pattern;
            if p[0] == '*' {
                assert(p == "*Dispatcher"@);
            } else if p[0] != name[0] && p[0] != '?' {
                lemma_literal_mismatch(p, name, 0);
            } else if p[1] != name[1] && p[1] != '?' {
                lemma_literal_mismatch(p, name, 1);
            }
        }
        assert("PoolThread*"@ =~= "PoolThread"@.push('*'));
        assert(name.subrange(0, 10) =~= "PoolThread"@);
        law_literal_prefix_star("PoolThread"@, name);
        lemma_wildcard_entry_wins(name, 85);
    }
}

/// One thread name for each wildcard entry of the built-in table for
/// executor, Binder and HTTP threads that go to the big cores, with its
/// entry:
/// `io.worker1` (`io.worker*`), `Compute1` (`Compute*`), `Binder:1` (`Binder:*`),
/// `binder:1` (`binder:*`), `HwBinder:1` (`HwBinder:*`), `OkHttp1` (`OkHttp*`),
/// `ExoPlayer:1` (`ExoPlayer:*`).
#[verifier::spinoff_prover]
#[verifier::rlimit(80)]
pub proof fn law_big_wildcard_names_binder()
    ensures
        classify_spec(builtin_rules(), "io.worker1"@) == CoreTarget::Big,
        classify_spec(builtin_rules(), "Compute1"@) == CoreTarget::Big,
        classify_spec(builtin_rules(), "Binder:1"@) == CoreTarget::Big,
        classify_spec(builtin_rules(), "binder:1"@) == CoreTarget::Big,
        classify_spec(builtin_rules(), "HwBinder:1"@) == CoreTarget::Big,
        classify_spec(builtin_rules(), "OkHttp1"@) == CoreTarget::Big,
        classify_spec(builtin_rules(), "ExoPlayer:1"@) == CoreTarget::Big,
{
    let rs = builtin_rules();
    reveal_strlit("*Dispatcher");
    reveal_strlit("1.raster");
    reveal_strlit("1.ui");
    reveal_strlit("2.ui");
    reveal_strlit("?.io");
    reveal_strlit("?.raster");
    reveal_strlit("?.ui");
    reveal_strlit("AILocalThread");
    reveal_strlit("APM_light-weigh");
    reveal_strlit("AndroidRender");
    reveal_strlit("AndroidUI");
    reveal_strlit("AnimationThread");
    reveal_strlit("AsyncTask*");
    reveal_strlit("AudioThread");
    reveal_strlit("AudioTrack");
    reveal_strlit("Binder:");
    reveal_strlit("Binder:*");
    reveal_strlit("Binder:1");
    reveal_strlit("CallbackHndlr");
    reveal_strlit("Chrome_ChildIOT");
    reveal_strlit("Chrome_IOThread");
    reveal_strlit("Chrome_InProcGp");
    reveal_strlit("Chrome_InProcRe");
    reveal_strlit("ChromiumNet*");
    reveal_strlit("Compositor");
    reveal_strlit("Compute");
    reveal_strlit("Compute*");
    reveal_strlit("Compute1");
    reveal_strlit("CoreThread");
    reveal_strlit("CrRendererMain");
    reveal_strlit("DartWorker*");
    reveal_strlit("DefaultDispatch");
    reveal_strlit("DefaultExecutor");
    reveal_strlit("DispatchQueuePo");
    reveal_strlit("Dispatcher");
    reveal_strlit("ExoPlayer:");
    reveal_strlit("ExoPlayer:*");
    reveal_strlit("ExoPlayer:1");
    reveal_strlit("GLThread*");
    reveal_strlit("GPM-DataThread");
    reveal_strlit("GameThread");
    reveal_strlit("Game[0-9]*");
    reveal_strlit("GcamViewfinder");
    reveal_strlit("Gecko");
    reveal_strlit("HeapTaskDaemon");
    reveal_strlit("HwBinder:");
    reveal_strlit("HwBinder:*");
    reveal_strlit("HwBinder:1");
    reveal_strlit("IL2CPP*");
    reveal_strlit("IOThread*");
    reveal_strlit("IPC*");
    reveal_strlit("IPDL*");
    reveal_strlit("InputDispatcher");
    reveal_strlit("InsetsAnimation");
    reveal_strlit("JNISurfaceTextu");
    reveal_strlit("JavaBridge");
    reveal_strlit("Jit thread pool");
    reveal_strlit("Job.[Ww]orker*");
    reveal_strlit("JobThread*");
    reveal_strlit("LogAppendWork");
    reveal_strlit("LogicThread");
    reveal_strlit("Lynx_JS");
    reveal_strlit("MainThread");
    reveal_strlit("MainThread*");
    reveal_strlit("Mainloop");
    reveal_strlit("MiniRainbowMain");
    reveal_strlit("MiniRenderThrea");
    reveal_strlit("NativeThread*");
    reveal_strlit("NetworkService");
    reveal_strlit("OkHttp");
    reveal_strlit("OkHttp*");
    reveal_strlit("OkHttp1");
    reveal_strlit("PakMergeThread");
    reveal_strlit("Phenix-Schedule");
    reveal_strlit("PoolThread*");
    reveal_strlit("RHIThread");
    reveal_strlit("RHIThread*");
    reveal_strlit("RenderEngine");
    reveal_strlit("RenderThread");
    reveal_strlit("RenderThread*");
    reveal_strlit("RenderingThread");
    reveal_strlit("RxCachedThreadS");
    reveal_strlit("ShaderCompiling");
    reveal_strlit("Socket Thread");
    reveal_strlit("Task*");
    reveal_strlit("TaskGraph*");
    reveal_strlit("Thread-*");
    reveal_strlit("ThumbnailStorag");
    reveal_strlit("UEGameThread");
    reveal_strlit("UnityGfx*");
    reveal_strlit("UnityGfxDeviceW");
    reveal_strlit("UnityMain");
    reveal_strlit("UnityMultiRende*");
    reveal_strlit("UnityPreload");
    reveal_strlit("UnityPreload*");
    reveal_strlit("VCMainThread");
    reveal_strlit("VDecod*");
    reveal_strlit("VizCompositor");
    reveal_strlit("VizWebView");
    reveal_strlit("VulkanRenderMan");
    reveal_strlit("Web Content");
    reveal_strlit("Worker Thread");
    reveal_strlit("[Bb]inder:*");
    reveal_strlit("alsoft-mixer");
    reveal_strlit("arch_disk*");
    reveal_strlit("arch_disk_*");
    reveal_strlit("binder:");
    reveal_strlit("binder:*");
    reveal_strlit("binder:1");
    reveal_strlit("fileUploadQueue");
    reveal_strlit("files_database*");
    reveal_strlit("glide*");
    reveal_strlit("glide-*");
    reveal_strlit("hwui*");
    reveal_strlit("hwuiTask*");
    reveal_strlit("io.worker");
    reveal_strlit("io.worker*");
    reveal_strlit("io.worker1");
    reveal_strlit("looper_monitor");
    reveal_strlit("main");
    reveal_strlit("mali-*");
    reveal_strlit("mqt_*");
    reveal_strlit("searchQueue");
    reveal_strlit("stageQueue*");
    assert("*Dispatcher"@ =~= seq!['*'] + "Dispatcher"@);
    assert(is_literal("Dispatcher"@));
    assert(classify_spec(rs, "io.worker1"@) == CoreTarget::Big) by {
        let name = "io.worker1"@;
        assert(name.len() == 10);
        assert forall|j: int| 0 <= j < rs.len() && rs[j].priority == 100 implies #[trigger] rs[
            j
        ].pattern != name by {
            let p = rs[j].pattern;
            assert(p == name ==> p.len() == 10 && p[0] == name[0] && p[1] == name[1] && p[2] == name[2] && p[3] == name[3] && p[4] == name[4] && p[5] == name[5] && p[6] == name[6] && p[7] == name[7] && p[8] == name[8] && p[9] == name[9]);
        }
        law_star_literal_suffix("Dispatcher"@, name);
        assert(name.subrange(10 - 10, 10)[9] == name[9]);
        assert forall|j: int| 0 <= j < 87 && rs[j].priority == 50 implies !glob_spec(
            #[trigger] rs[j].pattern,
            name,
        ) by {
            let p = rs[j].pattern;
            if p[0] == '*' {
                assert(p == "*Dispatcher"@);
            } else if p[0] != name[0] && p[0] != '?' {
                lemma_literal_mismatch(p, name, 0);
            } else if p[1] != name[1] && p[1] != '?' {
                lemma_literal_mismatch(p, name, 1);
            }
        }
        assert("io.worker*"@ =~= "io.worker"@.push('*'));
        assert(name.subrange(0, 9) =~= "io.worker"@);
        law_literal_prefix_star("io.worker"@, name);
        lemma_wildcard_entry_wins(name, 87);
    }
    assert(classify_spec(rs, "Compute1"@) == CoreTarget::Big) by {
        let name = "Compute1"@;
        assert(name.len() == 8);
        assert forall|j: int| 0 <= j < rs.len() && rs[j].priority == 100 implies #[trigger] rs[
            j
        ].pattern != name by {
            let p = rs[j].pattern;
            assert(p == name ==> p.len() == 8 && p[0] == name[0] && p[1] == name[1] && p[2] == name[2] && p[3] == name[3] && p[4] == name[4] && p[5] == name[5] && p[6] == name[6] && p[7] == name[7]);
        }
        law_star_literal_suffix("Dispatcher"@, name);
        assert(name.len() < 10);
        assert forall|j: int| 0 <= j < 89 && rs[j].priority == 50 implies !glob_spec(
            #[trigger] rs[j].pattern,
            name,
        ) by {
            let p = rs[j].pattern;
            if p[0] == '*' {
                assert(p == "*Dispatcher"@);
            } else if p[0] != name[0] && p[0] != '?' {
                lemma_literal_mismatch(p, name, 0);
            } else if p[1] != name[1] && p[1] != '?' {
                lemma_literal_mismatch(p, name, 1);
            }
        }
        assert("Compute*"@ =~= "Compute"@.push('*'));
        assert(name.subrange(0, 7) =~= "Compute"@);
        law_literal_prefix_star("Compute"@, name);
        lemma_wildcard_entry_wins(name, 89);
    }
    assert(classify_spec(rs, "Binder:1"@) == CoreTarget::Big) by {
        let name = "Binder:1"@;
        assert(name.len() == 8);
        assert forall|j: int| 0 <= j < rs.len() && rs[j].priority == 100 implies #[trigger] rs[
            j
        ].pattern != name by {
            let p = rs[j].pattern;
            assert(p == name ==> p.len() == 8 && p[0] == name[0] && p[1] == name[1] && p[2] == name[2] && p[3] == name[3] && p[4] == name[4] && p[5] == name[5] && p[6] == name[6] && p[7] == name[7]);
        }
        law_star_literal_suffix("Dispatcher"@, name);
        assert(name.len() < 10);
        assert forall|j: int| 0 <= j < 92 && rs[j].priority == 50 implies !glob_spec(
            #[trigger] rs[j].pattern,
            name,
        ) by {
            let p = rs[j].pattern;
            if p[0] == '*' {
                assert(p == "*Dispatcher"@);
            } else if p[0] != name[0] && p[0] != '?' {
                lemma_literal_mismatch(p, name, 0);
            } else if p[1] != name[1] && p[1] != '?' {
                lemma_literal_mismatch(p, name, 1);
            }
        }
        assert("Binder:*"@ =~= "Binder:"@.push('*'));
        assert(name.subrange(0, 7) =~= "Binder:"@);
        law_literal_prefix_star("Binder:"@, name);
        lemma_wildcard_entry_wins(name, 92);
    }
    assert(classify_spec(rs, "binder:1"@) == CoreTarget::Big) by {
        let name = "binder:1"@;
        assert(name.len() == 8);
        assert forall|j: int| 0 <= j < rs.len() && rs[j].priority == 100 implies #[trigger] rs[
            j
        ].pattern != name by {
            let p = rs[j].pattern;
            assert(p == name ==> p.len() == 8 && p[0] == name[0] && p[1] == name[1] && p[2] == name[2] && p[3] == name[3] && p[4] == name[4] && p[5] == name[5] && p[6] == name[6] && p[7] == name[7]);
        }
        law_star_literal_suffix("Dispatcher"@, name);
        assert(name.len() < 10);
        assert forall|j: int| 0 <= j < 93 && rs[j].priority == 50 implies !glob_spec(
            #[trigger] rs[j].pattern,
            name,
        ) by {
            let p = rs[j].pattern;
            if p[0] == '*' {
                assert(p == "*Dispatcher"@);
            } else if p[0] != name[0] && p[0] != '?' {
                lemma_literal_mismatch(p, name, 0);
            } else if p[1] != name[1] && p[1] != '?' {
                lemma_literal_mismatch(p, name, 1);
            }
        }
        assert("binder:*"@ =~= "binder:"@.push('*'));
        assert(name.subrange(0, 7) =~= "binder:"@);
        law_literal_prefix_star("binder:"@, name);
        lemma_wildcard_entry_wins(name, 93);
    }
    assert(classify_spec(rs, "HwBinder:1"@) == CoreTarget::Big) by {
        let name = "HwBinder:1"@;
        assert(name.len() == 10);
        assert forall|j: int| 0 <= j < rs.len() && rs[j].priority == 100 implies #[trigger] rs[
            j
        ].pattern != name by {
            let p = rs[j].pattern;
            assert(p == name ==> p.len() == 10 && p[0] == name[0] && p[1] == name[1] && p[2] == name[2] && p[3] == name[3] && p[4] == name[4] && p[5] == name[5] && p[6] == name[6] && p[7] == name[7] && p[8] == name[8] && p[9] == name[9]);
        }
        law_star_literal_suffix("Dispatcher"@, name);
        assert(name.subrange(10 - 10, 10)[9] == name[9]);
        assert forall|j: int| 0 <= j < 94 && rs[j].priority == 50 implies !glob_spec(
            #[trigger] rs[j].pattern,
            name,
        ) by {
            let p = rs[j].pattern;
            if p[0] == '*' {
                assert(p == "*Dispatcher"@);
            } else if p[0] != name[0] && p[0] != '?' {
                lemma_literal_mismatch(p, name, 0);
            } else if p[1] != name[1] && p[1] != '?' {
                lemma_literal_mismatch(p, name, 1);
            }
        }
        assert("HwBinder:*"@ =~= "HwBinder:"@.push('*'));
        assert(name.subrange(0, 9) =~= "HwBinder:"@);
        law_literal_prefix_star("HwBinder:"@, name);
        lemma_wildcard_entry_wins(name, 94);
    }
    assert(classify_spec(rs, "OkHttp1"@) == CoreTarget::Big) by {
        let name = "OkHttp1"@;
        assert(name.len() == 7);
        assert forall|j: int| 0 <= j < rs.len() && rs[j].priority == 100 implies #[trigger] rs[
            j
        ].pattern != name by {
            let p = rs[j].pattern;
            assert(p == name ==> p.len() == 7 && p[0] == name[0] && p[1] == name[1] && p[2] == name[2] && p[3] == name[3] && p[4] == name[4] && p[5] == name[5] && p[6] == name[6]);
        }
        law_star_literal_suffix("Dispatcher"@, name);
        assert(name.len() < 10);
        assert forall|j: int| 0 <= j < 97 && rs[j].priority == 50 implies !glob_spec(
            #[trigger] rs[j].pattern,
            name,
        ) by {
            let p = rs[j].pattern;
            if p[0] == '*' {
                assert(p == "*Dispatcher"@);
            } else if p[0] == '[' {
                lemma_pair_class_rejects(p, name);
            } else if p[0] != name[0] && p[0] != '?' {
                lemma_literal_mismatch(p, name, 0);
            } else if p[1] != name[1] && p[1] != '?' {
                lemma_literal_mismatch(p, name, 1);
            }
        }
        assert("OkHttp*"@ =~= "OkHttp"@.push('*'));
        assert(name.subrange(0, 6) =~= "OkHttp"@);
        law_literal_prefix_star("OkHttp"@, name);
        lemma_wildcard_entry_wins(name, 97);
    }
    assert(classify_spec(rs, "ExoPlayer:1"@) == CoreTarget::Big) by {
        let name = "ExoPlayer:1"@;
        assert(name.len() == 11);
        assert forall|j: int| 0 <= j < rs.len() && rs[j].priority == 100 implies #[trigger] rs[
            j
        ].pattern != name by {
            let p = rs[j].pattern;
            assert(p == name ==> p.len() == 11 && p[0] == name[0] && p[1] == name[1] && p[2] == name[2] && p[3] == name[3] && p[4] == name[4] && p[5] == name[5] && p[6] == name[6] && p[7] == name[7] && p[8] == name[8] && p[9] == name[9] && p[10] == name[10]);
        }
        law_star_literal_suffix("Dispatcher"@, name);
        assert(name.subrange(11 - 10, 11)[9] == name[10]);
        assert forall|j: int| 0 <= j < 99 && rs[j].priority == 50 implies !glob_spec(
            #[trigger] rs[j].pattern,
            name,
        ) by {
            let p = rs[j].pattern;
            if p[0] == '*' {
                assert(p == "*Dispatcher"@);
            } else if p[0] == '[' {
                lemma_pair_class_rejects(p, name);
            } else if p[0] != name[0] && p[0] != '?' {
                lemma_literal_mismatch(p, name, 0);
            } else if p[1] != name[1] && p[1] != '?' {
                lemma_literal_mismatch(p, name, 1);
            }
        }
        assert("ExoPlayer:*"@ =~= "ExoPlayer:"@.push('*'));
        assert(name.subrange(0, 10) =~= "ExoPlayer:"@);
        law_literal_prefix_star("ExoPlayer:"@, name);
        lemma_wildcard_entry_wins(name, 99);
    }
}

/// One thread name for each wildcard entry of the built-in table for media
/// and storage threads that go to the big cores, with its entry:
/// `MediaCodec1` (`MediaCodec*`), `CodecLooper1` (`CodecLooper*`),
/// `storageQueue1` (`storageQueue*`), `mpv/1` (`mpv/*`), `VOutle1` (`VOutle*`),
/// `AOutle1` (`AOutle*`), `CRI1` (`CRI*`), `Shared_w1` (`Shared_w*`).
#[verifier::spinoff_prover]
#[verifier::rlimit(80)]
pub proof fn law_big_wildcard_names_media()
    ensures
        classify_spec(builtin_rules(), "MediaCodec1"@) == CoreTarget::Big,
        classify_spec(builtin_rules(), "CodecLooper1"@) == CoreTarget::Big,
        classify_spec(builtin_rules(), "storageQueue1"@) == CoreTarget::Big,
        classify_spec(builtin_rules(), "mpv/1"@) == CoreTarget::Big,
        classify_spec(builtin_rules(), "VOutle1"@) == CoreTarget::Big,
        classify_spec(builtin_rules(), "AOutle1"@) == CoreTarget::Big,
        classify_spec(builtin_rules(), "CRI1"@) == CoreTarget::Big,
        classify_spec(builtin_rules(), "Shared_w1"@) == CoreTarget::Big,
{
    let rs = builtin_rules();
    reveal_strlit("*Dispatcher");
    reveal_strlit("1.raster");
    reveal_strlit("1.ui");
    reveal_strlit("2.ui");
    reveal_strlit("?.io");
    reveal_strlit("?.raster");
    reveal_strlit("?.ui");
    reveal_strlit("AILocalThread");
    reveal_strlit("AOutle");
    reveal_strlit("AOutle*");
    reveal_strlit("AOutle1");
    reveal_strlit("APM_light-weigh");
    reveal_strlit("AndroidRender");
    reveal_strlit("AndroidUI");
    reveal_strlit("AnimationThread");
    reveal_strlit("AsyncTask*");
    reveal_strlit("AudioThread");
    reveal_strlit("AudioTrack");
    reveal_strlit("Binder:*");
    reveal_strlit("CRI");
    reveal_strlit("CRI*");
    reveal_strlit("CRI1");
    reveal_strlit("CallbackHndlr");
    reveal_strlit("Chrome_ChildIOT");
    reveal_strlit("Chrome_IOThread");
    reveal_strlit("Chrome_InProcGp");
    reveal_strlit("Chrome_InProcRe");
    reveal_strlit("ChromiumNet*");
    reveal_strlit("CodecLooper");
    reveal_strlit("CodecLooper*");
    reveal_strlit("CodecLooper1");
    reveal_strlit("Compositor");
    reveal_strlit("Compute*");
    reveal_strlit("CoreThread");
    reveal_strlit("CrRendererMain");
    reveal_strlit("DartWorker*");
    reveal_strlit("DefaultDispatch");
    reveal_strlit("DefaultExecutor");
    reveal_strlit("DispatchQueuePo");
    reveal_strlit("Dispatcher");
    reveal_strlit("ExoPlayer:*");
    reveal_strlit("GLThread*");
    reveal_strlit("GPM-DataThread");
    reveal_strlit("GameThread");
    reveal_strlit("Game[0-9]*");
    reveal_strlit("GcamViewfinder");
    reveal_strlit("Gecko");
    reveal_strlit("HeapTaskDaemon");
    reveal_strlit("HwBinder:*");
    reveal_strlit("IL2CPP*");
    reveal_strlit("IOThread*");
    reveal_strlit("IPC*");
    reveal_strlit("IPDL*");
    reveal_strlit("InputDispatcher");
    reveal_strlit("InsetsAnimation");
    reveal_strlit("JNISurfaceTextu");
    reveal_strlit("JavaBridge");
    reveal_strlit("Jit thread pool");
    reveal_strlit("Job.[Ww]orker*");
    reveal_strlit("JobThread*");
    reveal_strlit("LogAppendWork");
    reveal_strlit("LogicThread");
    reveal_strlit("Lynx_JS");
    reveal_strlit("MainThread");
    reveal_strlit("MainThread*");
    reveal_strlit("Mainloop");
    reveal_strlit("MediaCodec");
    reveal_strlit("MediaCodec*");
    reveal_strlit("MediaCodec1");
    reveal_strlit("MiniRainbowMain");
    reveal_strlit("MiniRenderThrea");
    reveal_strlit("NativeThread*");
    reveal_strlit("NetworkService");
    reveal_strlit("OkHttp*");
    reveal_strlit("PakMergeThread");
    reveal_strlit("Phenix-Schedule");
    reveal_strlit("PoolThread*");
    reveal_strlit("RHIThread");
    reveal_strlit("RHIThread*");
    reveal_strlit("RenderEngine");
    reveal_strlit("RenderThread");
    reveal_strlit("RenderThread*");
    reveal_strlit("RenderingThread");
    reveal_strlit("RxCachedThreadS");
    reveal_strlit("ShaderCompiling");
    reveal_strlit("Shared_w");
    reveal_strlit("Shared_w*");
    reveal_strlit("Shared_w1");
    reveal_strlit("Socket Thread");
    reveal_strlit("Task*");
    reveal_strlit("TaskGraph*");
    reveal_strlit("Thread-*");
    reveal_strlit("ThumbnailStorag");
    reveal_strlit("UEGameThread");
    reveal_strlit("UnityGfx*");
    reveal_strlit("UnityGfxDeviceW");
    reveal_strlit("UnityMain");
    reveal_strlit("UnityMultiRende*");
    reveal_strlit("UnityPreload");
    reveal_strlit("UnityPreload*");
    reveal_strlit("VCMainThread");
    reveal_strlit("VDecod*");
    reveal_strlit("VOutle");
    reveal_strlit("VOutle*");
    reveal_strlit("VOutle1");
    reveal_strlit("VizCompositor");
    reveal_strlit("VizWebView");
    reveal_strlit("VulkanRenderMan");
    reveal_strlit("Web Content");
    reveal_strlit("Worker Thread");
    reveal_strlit("[Bb]inder:*");
    reveal_strlit("alsoft-mixer");
    reveal_strlit("arch_disk*");
    reveal_strlit("arch_disk_*");
    reveal_strlit("beacon-thread-*");
    reveal_strlit("binder:*");
    reveal_strlit("fileUploadQueue");
    reveal_strlit("files_database*");
    reveal_strlit("glide*");
    reveal_strlit("glide-*");
    reveal_strlit("hwui*");
    reveal_strlit("hwuiTask*");
    reveal_strlit("io.worker*");
    reveal_strlit("looper_monitor");
    reveal_strlit("main");
    reveal_strlit("mali-*");
    reveal_strlit("mpv/");
    reveal_strlit("mpv/*");
    reveal_strlit("mpv/1");
    reveal_strlit("mqt_*");
    reveal_strlit("searchQueue");
    reveal_strlit("stageQueue*");
    reveal_strlit("storageQueue");
    reveal_strlit("storageQueue*");
    reveal_strlit("storageQueue1");
    assert("*Dispatcher"@ =~= seq!['*'] + "Dispatcher"@);
    assert(is_literal("Dispatcher"@));
    assert(classify_spec(rs, "MediaCodec1"@) == CoreTarget::Big) by {
        let name = "MediaCodec1"@;
        assert(name.len() == 11);
        assert forall|j: int| 0 <= j < rs.len() && rs[j].priority == 100 implies #[trigger] rs[
            j
        ].pattern != name by {
            let p = rs[j].pattern;
            assert(p == name ==> p.len() == 11 && p[0] == name[0] && p[1] == name[1] && p[2] == name[2] && p[3] == name[3] && p[4] == name[4] && p[5] == name[5] && p[6] == name[6] && p[7] == name[7] && p[8] == name[8] && p[9] == name[9] && p[10] == name[10]);
        }
        law_star_literal_suffix("Dispatcher"@, name);
        assert(name.subrange(11 - 10, 11)[9] == name[10]);
        assert forall|j: int| 0 <= j < 101 && rs[j].priority == 50 implies !glob_spec(
            #[trigger] rs[j].pattern,
            name,
        ) by {
            let p = rs[j].pattern;
            if p[0] == '*' {
                assert(p == "*Dispatcher"@);
            } else if p[0] == '[' {
                lemma_pair_class_rejects(p, name);
            } else if p[0] != name[0] && p[0] != '?' {
                lemma_literal_mismatch(p, name, 0);
            } else if p[1] != name[1] && p[1] != '?' {
                lemma_literal_mismatch(p, name, 1);
            }
        }
        assert("MediaCodec*"@ =~= "MediaCodec"@.push('*'));
        assert(name.subrange(0, 10) =~= "MediaCodec"@);
        law_literal_prefix_star("MediaCodec"@, name);
        lemma_wildcard_entry_wins(name, 101);
    }
    assert(classify_spec(rs, "CodecLooper1"@) == CoreTarget::Big) by {
        let name = "CodecLooper1"@;
        assert(name.len() == 12);
        assert forall|j: int| 0 <= j < rs.len() && rs[j].priority == 100 implies #[trigger] rs[
            j
        ].pattern != name by {
            let p = rs[j].pattern;
            assert(p == name ==> p.len() == 12 && p[0] == name[0] && p[1] == name[1] && p[2] == name[2] && p[3] == name[3] && p[4] == name[4] && p[5] == name[5] && p[6] == name[6] && p[7] == name[7] && p[8] == name[8] && p[9] == name[9] && p[10] == name[10] && p[11] == name[11]);
        }
        law_star_literal_suffix("Dispatcher"@, name);
        assert(name.subrange(12 - 10, 12)[9] == name[11]);
        assert forall|j: int| 0 <= j < 102 && rs[j].priority == 50 implies !glob_spec(
            #[trigger] rs[j].pattern,
            name,
        ) by {
            let p = rs[j].pattern;
            if p[0] == '*' {
                assert(p == "*Dispatcher"@);
            } else if p[0] == '[' {
                lemma_pair_class_rejects(p, name);
            } else if p[0] != name[0] && p[0] != '?' {
                lemma_literal_mismatch(p, name, 0);
            } else if p[1] != name[1] && p[1] != '?' {
                lemma_literal_mismatch(p, name, 1);
            } else if p[2] != name[2] && p[2] != '?' {
                lemma_literal_mismatch(p, name, 2);
            }
        }
        assert("CodecLooper*"@ =~= "CodecLooper"@.push('*'));
        assert(name.subrange(0, 11) =~= "CodecLooper"@);
        law_literal_prefix_star("CodecLooper"@, name);
        lemma_wildcard_entry_wins(name, 102);
    }
    assert(classify_spec(rs, "storageQueue1"@) == CoreTarget::Big) by {
        let name = "storageQueue1"@;
        assert(name.len() == 13);
        assert forall|j: int| 0 <= j < rs.len() && rs[j].priority == 100 implies #[trigger] rs[
            j
        ].pattern != name by {
            let p = rs[j].pattern;
            assert(p == name ==> p.len() == 13 && p[0] == name[0] && p[1] == name[1] && p[2] == name[2] && p[3] == name[3] && p[4] == name[4] && p[5] == name[5] && p[6] == name[6] && p[7] == name[7] && p[8] == name[8] && p[9] == name[9] && p[10] == name[10] && p[11] == name[11] && p[12] == name[12]);
        }
        law_star_literal_suffix("Dispatcher"@, name);
        assert(name.subrange(13 - 10, 13)[9] == name[12]);
        assert forall|j: int| 0 <= j < 103 && rs[j].priority == 50 implies !glob_spec(
            #[trigger] rs[j].pattern,
            name,
        ) by {
            let p = rs[j].pattern;
            if p[0] == '*' {
                assert(p == "*Dispatcher"@);
            } else if p[0] == '[' {
                lemma_pair_class_rejects(p, name);
            } else if p[0] != name[0] && p[0] != '?' {
                lemma_literal_mismatch(p, name, 0);
            } else if p[1] != name[1] && p[1] != '?' {
                lemma_literal_mismatch(p, name, 1);
            } else if p[2] != name[2] && p[2] != '?' {
                lemma_literal_mismatch(p, name, 2);
            }
        }
        assert("storageQueue*"@ =~= "storageQueue"@.push('*'));
        assert(name.subrange(0, 12) =~= "storageQueue"@);
        law_literal_prefix_star("storageQueue"@, name);
        lemma_wildcard_entry_wins(name, 103);
    }
    assert(classify_spec(rs, "mpv/1"@) == CoreTarget::Big) by {
        let name = "mpv/1"@;
        assert(name.len() == 5);
        assert forall|j: int| 0 <= j < rs.len() && rs[j].priority == 100 implies #[trigger] rs[
            j
        ].pattern != name by {
            let p = rs[j].pattern;
            assert(p == name ==> p.len() == 5 && p[0] == name[0] && p[1] == name[1] && p[2] == name[2] && p[3] == name[3] && p[4] == name[4]);
        }
        law_star_literal_suffix("Dispatcher"@, name);
        assert(name.len() < 10);
        assert forall|j: int| 0 <= j < 104 && rs[j].priority == 50 implies !glob_spec(
            #[trigger] rs[j].pattern,
            name,
        ) by {
            let p = rs[j].pattern;
            if p[0] == '*' {
                assert(p == "*Dispatcher"@);
            } else if p[0] == '[' {
                lemma_pair_class_rejects(p, name);
            } else if p[0] != name[0] && p[0] != '?' {
                lemma_literal_mismatch(p, name, 0);
            } else if p[1] != name[1] && p[1] != '?' {
                lemma_literal_mismatch(p, name, 1);
            }
        }
        assert("mpv/*"@ =~= "mpv/"@.push('*'));
        assert(name.subrange(0, 4) =~= "mpv/"@);
        law_literal_prefix_star("mpv/"@, name);
        lemma_wildcard_entry_wins(name, 104);
    }
    assert(classify_spec(rs, "VOutle1"@) == CoreTarget::Big) by {
        let name = "VOutle1"@;
        assert(name.len() == 7);
        assert forall|j: int| 0 <= j < rs.len() && rs[j].priority == 100 implies #[trigger] rs[
            j
        ].pattern != name by {
            let p = rs[j].pattern;
            assert(p == name ==> p.len() == 7 && p[0] == name[0] && p[1] == name[1] && p[2] == name[2] && p[3] == name[3] && p[4] == name[4] && p[5] == name[5] && p[6] == name[6]);
        }
        law_star_literal_suffix("Dispatcher"@, name);
        assert(name.len() < 10);
        assert forall|j: int| 0 <= j < 105 && rs[j].priority == 50 implies !glob_spec(
            #[trigger] rs[j].pattern,
            name,
        ) by {
            let p = rs[j].pattern;
            if p[0] == '*' {
                assert(p == "*Dispatcher"@);
            } else if p[0] == '[' {
                lemma_pair_class_rejects(p, name);
            } else if p[0] != name[0] && p[0] != '?' {
                lemma_literal_mismatch(p, name, 0);
            } else if p[1] != name[1] && p[1] != '?' {
                lemma_literal_mismatch(p, name, 1);
            }
        }
        assert("VOutle*"@ =~= "VOutle"@.push('*'));
        assert(name.subrange(0, 6) =~= "VOutle"@);
        law_literal_prefix_star("VOutle"@, name);
        lemma_wildcard_entry_wins(name, 105);
    }
    assert(classify_spec(rs, "AOutle1"@) == CoreTarget::Big) by {
        let name = "AOutle1"@;
        assert(name.len() == 7);
        assert forall|j: int| 0 <= j < rs.len() && rs[j].priority == 100 implies #[trigger] rs[
            j
        ].pattern != name by {
            let p = rs[j].pattern;
            assert(p == name ==> p.len() == 7 && p[0] == name[0] && p[1] == name[1] && p[2] == name[2] && p[3] == name[3] && p[4] == name[4] && p[5] == name[5] && p[6] == name[6]);
        }
        law_star_literal_suffix("Dispatcher"@, name);
        assert(name.len() < 10);
        assert forall|j: int| 0 <= j < 106 && rs[j].priority == 50 implies !glob_spec(
            #[trigger] rs[j].pattern,
            name,
        ) by {
            let p = rs[j].pattern;
            if p[0] == '*' {
                assert(p == "*Dispatcher"@);
            } else if p[0] == '[' {
                lemma_pair_class_rejects(p, name);
            } else if p[0] != name[0] && p[0] != '?' {
                lemma_literal_mismatch(p, name, 0);
            } else if p[1] != name[1] && p[1] != '?' {
                lemma_literal_mismatch(p, name, 1);
            }
        }
        assert("AOutle*"@ =~= "AOutle"@.push('*'));
        assert(name.subrange(0, 6) =~= "AOutle"@);
        law_literal_prefix_star("AOutle"@, name);
        lemma_wildcard_entry_wins(name, 106);
    }
    assert(classify_spec(rs, "CRI1"@) == CoreTarget::Big) by {
        let name = "CRI1"@;
        assert(name.len() == 4);
        assert forall|j: int| 0 <= j < rs.len() && rs[j].priority == 100 implies #[trigger] rs[
            j
        ].pattern != name by {
            let p = rs[j].pattern;
            assert(p == name ==> p.len() == 4 && p[0] == name[0] && p[1] == name[1] && p[2] == name[2] && p[3] == name[3]);
        }
        law_star_literal_suffix("Dispatcher"@, name);
        assert(name.len() < 10);
        assert forall|j: int| 0 <= j < 107 && rs[j].priority == 50 implies !glob_spec(
            #[trigger] rs[j].pattern,
            name,
        ) by {
            let p = rs[j].pattern;
            if p[0] == '*' {
                assert(p == "*Dispatcher"@);
            } else if p[0] == '[' {
                lemma_pair_class_rejects(p, name);
            } else if p[0] != name[0] && p[0] != '?' {
                lemma_literal_mismatch(p, name, 0);
            } else if p[1] != name[1] && p[1] != '?' {
                lemma_literal_mismatch(p, name, 1);
            }
        }
        assert("CRI*"@ =~= "CRI"@.push('*'));
        assert(name.subrange(0, 3) =~= "CRI"@);
        law_literal_prefix_star("CRI"@, name);
        lemma_wildcard_entry_wins(name, 107);
    }
    assert(classify_spec(rs, "Shared_w1"@) == CoreTarget::Big) by {
        let name = "Shared_w1"@;
        assert(name.len() == 9);
        assert forall|j: int| 0 <= j < rs.len() && rs[j].priority == 100 implies #[trigger] rs[
            j
        ].pattern != name by {
            let p = rs[j].pattern;
            assert(p == name ==> p.len() == 9 && p[0] == name[0] && p[1] == name[1] && p[2] == name[2] && p[3] == name[3] && p[4] == name[4] && p[5] == name[5] && p[6] == name[6] && p[7] == name[7] && p[8] == name[8]);
        }
        law_star_literal_suffix("Dispatcher"@, name);
        assert(name.len() < 10);
        assert forall|j: int| 0 <= j < 112 && rs[j].priority == 50 implies !glob_spec(
            #[trigger] rs[j].pattern,
            name,
        ) by {
            let p = rs[j].pattern;
            if p[0] == '*' {
                assert(p == "*Dispatcher"@);
            } else if p[0] == '[' {
                lemma_pair_class_rejects(p, name);
            } else if p[0] != name[0] && p[0] != '?' {
                lemma_literal_mismatch(p, name, 0);
            } else if p[1] != name[1] && p[1] != '?' {
                lemma_literal_mismatch(p, name, 1);
            }
        }
        assert("Shared_w*"@ =~= "Shared_w"@.push('*'));
        assert(name.subrange(0, 8) =~= "Shared_w"@);
        law_literal_prefix_star("Shared_w"@, name);
        lemma_wildcard_entry_wins(name, 112);
    }
}

/// One thread name for each wildcard entry of the built-in table for thread
/// pools that go to the little and big cores, with its entry:
/// `ThreadPoolServi1` (`ThreadPoolServi*`), `ThreadPool1` (`ThreadPool*`),
/// `onPool-worker-1` (`onPool-worker-*`), `rx-pool-1` (`rx-pool-*`),
/// `cached-pool-1` (`cached-pool-*`), `pivotal-pool-1` (`pivotal-pool-*`),
/// `vrpool-1` (`vrpool-*`), `ledThreadPool-1` (`ledThreadPool-*`).
#[verifier::spinoff_prover]
#[verifier::rlimit(80)]
pub proof fn law_little_and_big_wildcard_names_pools()
    ensures
        classify_spec(builtin_rules(), "ThreadPoolServi1"@) == CoreTarget::LittleAndBig,
        classify_spec(builtin_rules(), "ThreadPool1"@) == CoreTarget::LittleAndBig,
        classify_spec(builtin_rules(), "onPool-worker-1"@) == CoreTarget::LittleAndBig,
        classify_spec(builtin_rules(), "rx-pool-1"@) == CoreTarget::LittleAndBig,
        classify_spec(builtin_rules(), "cached-pool-1"@) == CoreTarget::LittleAndBig,
        classify_spec(builtin_rules(), "pivotal-pool-1"@) == CoreTarget::LittleAndBig,
        classify_spec(builtin_rules(), "vrpool-1"@) == CoreTarget::LittleAndBig,
        classify_spec(builtin_rules(), "ledThreadPool-1"@) == CoreTarget::LittleAndBig,
{
    let rs = builtin_rules();
    reveal_strlit("#pool-[0-9]*-thread*");
    reveal_strlit("*Dispatcher");
    reveal_strlit("1.raster");
    reveal_strlit("1.ui");
    reveal_strlit("2.ui");
    reveal_strlit("?.io");
    reveal_strlit("?.raster");
    reveal_strlit("?.ui");
    reveal_strlit("AILocalThread");
    reveal_strlit("AOutle*");
    reveal_strlit("APM_light-weigh");
    reveal_strlit("AndroidRender");
    reveal_strlit("AndroidUI");
    reveal_strlit("AnimationThread");
    reveal_strlit("AsyncTask*");
    reveal_strlit("AudioThread");
    reveal_strlit("AudioTrack");
    reveal_strlit("Binder:*");
    reveal_strlit("CRI*");
    reveal_strlit("CallbackHndlr");
    reveal_strlit("Chrome_ChildIOT");
    reveal_strlit("Chrome_IOThread");
    reveal_strlit("Chrome_InProcGp");
    reveal_strlit("Chrome_InProcRe");
    reveal_strlit("ChromiumNet*");
    reveal_strlit("CodecLooper*");
    reveal_strlit("Compositor");
    reveal_strlit("Compute*");
    reveal_strlit("CoreThread");
    reveal_strlit("CrRendererMain");
    reveal_strlit("DartWorker*");
    reveal_strlit("DefaultDispatch");
    reveal_strlit("DefaultExecutor");
    reveal_strlit("DispatchQueuePo");
    reveal_strlit("Dispatcher");
    reveal_strlit("ExoPlayer:*");
    reveal_strlit("GLThread*");
    reveal_strlit("GPM-DataThread");
    reveal_strlit("GameThread");
    reveal_strlit("Game[0-9]*");
    reveal_strlit("GcamViewfinder");
    reveal_strlit("Gecko");
    reveal_strlit("HeapTaskDaemon");
    reveal_strlit("HwBinder:*");
    reveal_strlit("IL2CPP*");
    reveal_strlit("IOThread*");
    reveal_strlit("IPC*");
    reveal_strlit("IPDL*");
    reveal_strlit("InputDispatcher");
    reveal_strlit("InsetsAnimation");
    reveal_strlit("JNISurfaceTextu");
    reveal_strlit("JavaBridge");
    reveal_strlit("Jit thread pool");
    reveal_strlit("Job.[Ww]orker*");
    reveal_strlit("JobThread*");
    reveal_strlit("LogAppendWork");
    reveal_strlit("LogicThread");
    reveal_strlit("Lynx_JS");
    reveal_strlit("MainThread");
    reveal_strlit("MainThread*");
    reveal_strlit("Mainloop");
    reveal_strlit("MediaCodec*");
    reveal_strlit("MiniRainbowMain");
    reveal_strlit("MiniRenderThrea");
    reveal_strlit("NativeThread*");
    reveal_strlit("NetworkService");
    reveal_strlit("OkHttp*");
    reveal_strlit("PakMergeThread");
    reveal_strlit("Phenix-Schedule");
    reveal_strlit("PoolThread*");
    reveal_strlit("RHIThread");
    reveal_strlit("RHIThread*");
    reveal_strlit("RenderEngine");
    reveal_strlit("RenderThread");
    reveal_strlit("RenderThread*");
    reveal_strlit("RenderingThread");
    reveal_strlit("RxCachedThreadS");
    reveal_strlit("ShaderCompiling");
    reveal_strlit("Shared_w*");
    reveal_strlit("Socket Thread");
    reveal_strlit("Task*");
    reveal_strlit("TaskGraph*");
    reveal_strlit("Thread-*");
    reveal_strlit("ThreadPool");
    reveal_strlit("ThreadPool*");
    reveal_strlit("ThreadPool1");
    reveal_strlit("ThreadPoolForeg*");
    reveal_strlit("ThreadPoolServi");
    reveal_strlit("ThreadPoolServi*");
    reveal_strlit("ThreadPoolServi1");
    reveal_strlit("ThumbnailStorag");
    reveal_strlit("UEGameThread");
    reveal_strlit("UnityGfx*");
    reveal_strlit("UnityGfxDeviceW");
    reveal_strlit("UnityMain");
    reveal_strlit("UnityMultiRende*");
    reveal_strlit("UnityPreload");
    reveal_strlit("UnityPreload*");
    reveal_strlit("VCMainThread");
    reveal_strlit("VDecod*");
    reveal_strlit("VOutle*");
    reveal_strlit("VizCompositor");
    reveal_strlit("VizWebView");
    reveal_strlit("VulkanRenderMan");
    reveal_strlit("Web Content");
    reveal_strlit("Worker Thread");
    reveal_strlit("[Bb]inder:*");
    reveal_strlit("alsoft-mixer");
    reveal_strlit("arch_disk*");
    reveal_strlit("arch_disk_*");
    reveal_strlit("beacon-thread-*");
    reveal_strlit("binder:*");
    reveal_strlit("cached-pool-");
    reveal_strlit("cached-pool-*");
    reveal_strlit("cached-pool-1");
    reveal_strlit("fileUploadQueue");
    reveal_strlit("files_database*");
    reveal_strlit("glide*");
    reveal_strlit("glide-*");
    reveal_strlit("hwui*");
    reveal_strlit("hwuiTask*");
    reveal_strlit("io.worker*");
    reveal_strlit("ledThreadPool-");
    reveal_strlit("ledThreadPool-*");
    reveal_strlit("ledThreadPool-1");
    reveal_strlit("looper_monitor");
    reveal_strlit("main");
    reveal_strlit("mali-*");
    reveal_strlit("mpv/*");
    reveal_strlit("mqt_*");
    reveal_strlit("onPool-worker-");
    reveal_strlit("onPool-worker-*");
    reveal_strlit("onPool-worker-1");
    reveal_strlit("pivotal-pool-");
    reveal_strlit("pivotal-pool-*");
    reveal_strlit("pivotal-pool-1");
    reveal_strlit("pool-[0-9]*-thread*");
    reveal_strlit("rx-pool-");
    reveal_strlit("rx-pool-*");
    reveal_strlit("rx-pool-1");
    reveal_strlit("searchQueue");
    reveal_strlit("stageQueue*");
    reveal_strlit("storageQueue*");
    reveal_strlit("vrpool-");
    reveal_strlit("vrpool-*");
    reveal_strlit("vrpool-1");
    assert("*Dispatcher"@ =~= seq!['*'] + "Dispatcher"@);
    assert(is_literal("Dispatcher"@));
    assert(classify_spec(rs, "ThreadPoolServi1"@) == CoreTarget::LittleAndBig) by {
        let name = "ThreadPoolServi1"@;
        assert(name.len() == 16);
        assert forall|j: int| 0 <= j < rs.len() && rs[j].priority == 100 implies #[trigger] rs[
            j
        ].pattern != name by {
            let p = rs[j].pattern;
            assert(p == name ==> p.len() == 16 && p[0] == name[0] && p[1] == name[1] && p[2] == name[2] && p[3] == name[3] && p[4] == name[4] && p[5] == name[5] && p[6] == name[6] && p[7] == name[7] && p[8] == name[8] && p[9] == name[9] && p[10] == name[10] && p[11] == name[11] && p[12] == name[12] && p[13] == name[13] && p[14] == name[14] && p[15] == name[15]);
        }
        law_star_literal_suffix("Dispatcher"@, name);
        assert(name.subrange(16 - 10, 16)[9] == name[15]);
        assert forall|j: int| 0 <= j < 123 && rs[j].priority == 50 implies !glob_spec(
            #[trigger] rs[j].pattern,
            name,
        ) by {
            let p = rs[j].pattern;
            if p[0] == '*' {
                assert(p == "*Dispatcher"@);
            } else if p[0] == '[' {
                lemma_pair_class_rejects(p, name);
            } else if p[0] != name[0] && p[0] != '?' {
                lemma_literal_mismatch(p, name, 0);
            } else if p[1] != name[1] && p[1] != '?' {
                lemma_literal_mismatch(p, name, 1);
            } else if p[2] != name[2] && p[2] != '?' {
                lemma_literal_mismatch(p, name, 2);
            } else if p[3] != name[3] && p[3] != '?' {
                lemma_literal_mismatch(p, name, 3);
            } else if p[4] != name[4] && p[4] != '?' {
                lemma_literal_mismatch(p, name, 4);
            } else if p[5] != name[5] && p[5] != '?' {
                lemma_literal_mismatch(p, name, 5);
            } else if p[6] != name[6] && p[6] != '?' {
                lemma_literal_mismatch(p, name, 6);
            } else if p[7] != name[7] && p[7] != '?' {
                lemma_literal_mismatch(p, name, 7);
            } else if p[8] != name[8] && p[8] != '?' {
                lemma_literal_mismatch(p, name, 8);
            } else if p[9] != name[9] && p[9] != '?' {
                lemma_literal_mismatch(p, name, 9);
            } else if p[10] != name[10] && p[10] != '?' {
                lemma_literal_mismatch(p, name, 10);
            }
        }
        assert("ThreadPoolServi*"@ =~= "ThreadPoolServi"@.push('*'));
        assert(name.subrange(0, 15) =~= "ThreadPoolServi"@);
        law_literal_prefix_star("ThreadPoolServi"@, name);
        lemma_wildcard_entry_wins(name, 123);
    }
    assert(classify_spec(rs, "ThreadPool1"@) == CoreTarget::LittleAndBig) by {
        let name = "ThreadPool1"@;
        assert(name.len() == 11);
        assert forall|j: int| 0 <= j < rs.len() && rs[j].priority == 100 implies #[trigger] rs[
            j
        ].pattern != name by {
            let p = rs[j].pattern;
            assert(p == name ==> p.len() == 11 && p[0] == name[0] && p[1] == name[1] && p[2] == name[2] && p[3] == name[3] && p[4] == name[4] && p[5] == name[5] && p[6] == name[6] && p[7] == name[7] && p[8] == name[8] && p[9] == name[9] && p[10] == name[10]);
        }
        law_star_literal_suffix("Dispatcher"@, name);
        assert(name.subrange(11 - 10, 11)[9] == name[10]);
        assert forall|j: int| 0 <= j < 124 && rs[j].priority == 50 implies !glob_spec(
            #[trigger] rs[j].pattern,
            name,
        ) by {
            let p = rs[j].pattern;
            if p[0] == '*' {
                assert(p == "*Dispatcher"@);
            } else if p[0] == '[' {
                lemma_pair_class_rejects(p, name);
            } else if p[0] != name[0] && p[0] != '?' {
                lemma_literal_mismatch(p, name, 0);
            } else if p[1] != name[1] && p[1] != '?' {
                lemma_literal_mismatch(p, name, 1);
            } else if p[2] != name[2] && p[2] != '?' {
                lemma_literal_mismatch(p, name, 2);
            } else if p[3] != name[3] && p[3] != '?' {
                lemma_literal_mismatch(p, name, 3);
            } else if p[4] != name[4] && p[4] != '?' {
                lemma_literal_mismatch(p, name, 4);
            } else if p[5] != name[5] && p[5] != '?' {
                lemma_literal_mismatch(p, name, 5);
            } else if p[6] != name[6] && p[6] != '?' {
                lemma_literal_mismatch(p, name, 6);
            } else if p[7] != name[7] && p[7] != '?' {
                lemma_literal_mismatch(p, name, 7);
            } else if p[8] != name[8] && p[8] != '?' {
                lemma_literal_mismatch(p, name, 8);
            } else if p[9] != name[9] && p[9] != '?' {
                lemma_literal_mismatch(p, name, 9);
            } else if p[10] != name[10] && p[10] != '?' {
                lemma_literal_mismatch(p, name, 10);
            }
        }
        assert("ThreadPool*"@ =~= "ThreadPool"@.push('*'));
        assert(name.subrange(0, 10) =~= "ThreadPool"@);
        law_literal_prefix_star("ThreadPool"@, name);
        lemma_wildcard_entry_wins(name, 124);
    }
    assert(classify_spec(rs, "onPool-worker-1"@) == CoreTarget::LittleAndBig) by {
        let name = "onPool-worker-1"@;
        assert(name.len() == 15);
        assert forall|j: int| 0 <= j < rs.len() && rs[j].priority == 100 implies #[trigger] rs[
            j
        ].pattern != name by {
            let p = rs[j].pattern;
            assert(p == name ==> p.len() == 15 && p[0] == name[0] && p[1] == name[1] && p[2] == name[2] && p[3] == name[3] && p[4] == name[4] && p[5] == name[5] && p[6] == name[6] && p[7] == name[7] && p[8] == name[8] && p[9] == name[9] && p[10] == name[10] && p[11] == name[11] && p[12] == name[12] && p[13] == name[13] && p[14] == name[14]);
        }
        law_star_literal_suffix("Dispatcher"@, name);
        assert(name.subrange(15 - 10, 15)[9] == name[14]);
        assert forall|j: int| 0 <= j < 127 && rs[j].priority == 50 implies !glob_spec(
            #[trigger] rs[j].pattern,
            name,
        ) by {
            let p = rs[j].pattern;
            if p[0] == '*' {
                assert(p == "*Dispatcher"@);
            } else if p[0] == '[' {
                lemma_pair_class_rejects(p, name);
            } else if p[0] != name[0] && p[0] != '?' {
                lemma_literal_mismatch(p, name, 0);
            } else if p[1] != name[1] && p[1] != '?' {
                lemma_literal_mismatch(p, name, 1);
            }
        }
        assert("onPool-worker-*"@ =~= "onPool-worker-"@.push('*'));
        assert(name.subrange(0, 14) =~= "onPool-worker-"@);
        law_literal_prefix_star("onPool-worker-"@, name);
        lemma_wildcard_entry_wins(name, 127);
    }
    assert(classify_spec(rs, "rx-pool-1"@) == CoreTarget::LittleAndBig) by {
        let name = "rx-pool-1"@;
        assert(name.len() == 9);
        assert forall|j: int| 0 <= j < rs.len() && rs[j].priority == 100 implies #[trigger] rs[
            j
        ].pattern != name by {
            let p = rs[j].pattern;
            assert(p == name ==> p.len() == 9 && p[0] == name[0] && p[1] == name[1] && p[2] == name[2] && p[3] == name[3] && p[4] == name[4] && p[5] == name[5] && p[6] == name[6] && p[7] == name[7] && p[8] == name[8]);
        }
        law_star_literal_suffix("Dispatcher"@, name);
        assert(name.len() < 10);
        assert forall|j: int| 0 <= j < 128 && rs[j].priority == 50 implies !glob_spec(
            #[trigger] rs[j].pattern,
            name,
        ) by {
            let p = rs[j].pattern;
            if p[0] == '*' {
                assert(p == "*Dispatcher"@);
            } else if p[0] == '[' {
                lemma_pair_class_rejects(p, name);
            } else if p[0] != name[0] && p[0] != '?' {
                lemma_literal_mismatch(p, name, 0);
            } else if p[1] != name[1] && p[1] != '?' {
                lemma_literal_mismatch(p, name, 1);
            }
        }
        assert("rx-pool-*"@ =~= "rx-pool-"@.push('*'));
        assert(name.subrange(0, 8) =~= "rx-pool-"@);
        law_literal_prefix_star("rx-pool-"@, name);
        lemma_wildcard_entry_wins(name, 128);
    }
    assert(classify_spec(rs, "cached-pool-1"@) == CoreTarget::LittleAndBig) by {
        let name = "cached-pool-1"@;
        assert(name.len() == 13);
        assert forall|j: int| 0 <= j < rs.len() && rs[j].priority == 100 implies #[trigger] rs[
            j
        ].pattern != name by {
            let p = rs[j].pattern;
            assert(p == name ==> p.len() == 13 && p[0] == name[0] && p[1] == name[1] && p[2] == name[2] && p[3] == name[3] && p[4] == name[4] && p[5] == name[5] && p[6] == name[6] && p[7] == name[7] && p[8] == name[8] && p[9] == name[9] && p[10] == name[10] && p[11] == name[11] && p[12] == name[12]);
        }
        law_star_literal_suffix("Dispatcher"@, name);
        assert(name.subrange(13 - 10, 13)[9] == name[12]);
        assert forall|j: int| 0 <= j < 129 && rs[j].priority == 50 implies !glob_spec(
            #[trigger] rs[j].pattern,
            name,
        ) by {
            let p = rs[j].pattern;
            if p[0] == '*' {
                assert(p == "*Dispatcher"@);
            } else if p[0] == '[' {
                lemma_pair_class_rejects(p, name);
            } else if p[0] != name[0] && p[0] != '?' {
                lemma_literal_mismatch(p, name, 0);
            } else if p[1] != name[1] && p[1] != '?' {
                lemma_literal_mismatch(p, name, 1);
            }
        }
        assert("cached-pool-*"@ =~= "cached-pool-"@.push('*'));
        assert(name.subrange(0, 12) =~= "cached-pool-"@);
        law_literal_prefix_star("cached-pool-"@, name);
        lemma_wildcard_entry_wins(name, 129);
    }
    assert(classify_spec(rs, "pivotal-pool-1"@) == CoreTarget::LittleAndBig) by {
        let name = "pivotal-pool-1"@;
        assert(name.len() == 14);
        assert forall|j: int| 0 <= j < rs.len() && rs[j].priority == 100 implies #[trigger] rs[
            j
        ].pattern != name by {
            let p = rs[j].pattern;
            assert(p == name ==> p.len() == 14 && p[0] == name[0] && p[1] == name[1] && p[2] == name[2] && p[3] == name[3] && p[4] == name[4] && p[5] == name[5] && p[6] == name[6] && p[7] == name[7] && p[8] == name[8] && p[9] == name[9] && p[10] == name[10] && p[11] == name[11] && p[12] == name[12] && p[13] == name[13]);
        }
        law_star_literal_suffix("Dispatcher"@, name);
        assert(name.subrange(14 - 10, 14)[9] == name[13]);
        assert forall|j: int| 0 <= j < 130 && rs[j].priority == 50 implies !glob_spec(
            #[trigger] rs[j].pattern,
            name,
        ) by {
            let p = rs[j].pattern;
            if p[0] == '*' {
                assert(p == "*Dispatcher"@);
            } else if p[0] == '[' {
                lemma_pair_class_rejects(p, name);
            } else if p[0] != name[0] && p[0] != '?' {
                lemma_literal_mismatch(p, name, 0);
            } else if p[1] != name[1] && p[1] != '?' {
                lemma_literal_mismatch(p, name, 1);
            }
        }
        assert("pivotal-pool-*"@ =~= "pivotal-pool-"@.push('*'));
        assert(name.subrange(0, 13) =~= "pivotal-pool-"@);
        law_literal_prefix_star("pivotal-pool-"@, name);
        lemma_wildcard_entry_wins(name, 130);
    }
    assert(classify_spec(rs, "vrpool-1"@) == CoreTarget::LittleAndBig) by {
        let name = "vrpool-1"@;
        assert(name.len() == 8);
        assert forall|j: int| 0 <= j < rs.len() && rs[j].priority == 100 implies #[trigger] rs[
            j
        ].pattern != name by {
            let p = rs[j].pattern;
            assert(p == name ==> p.len() == 8 && p[0] == name[0] && p[1] == name[1] && p[2] == name[2] && p[3] == name[3] && p[4] == name[4] && p[5] == name[5] && p[6] == name[6] && p[7] == name[7]);
        }
        law_star_literal_suffix("Dispatcher"@, name);
        assert(name.len() < 10);
        assert forall|j: int| 0 <= j < 131 && rs[j].priority == 50 implies !glob_spec(
            #[trigger] rs[j].pattern,
            name,
        ) by {
            let p = rs[j].pattern;
            if p[0] == '*' {
                assert(p == "*Dispatcher"@);
            } else if p[0] == '[' {
                lemma_pair_class_rejects(p, name);
            } else if p[0] != name[0] && p[0] != '?' {
                lemma_literal_mismatch(p, name, 0);
            } else if p[1] != name[1] && p[1] != '?' {
                lemma_literal_mismatch(p, name, 1);
            }
        }
        assert("vrpool-*"@ =~= "vrpool-"@.push('*'));
        assert(name.subrange(0, 7) =~= "vrpool-"@);
        law_literal_prefix_star("vrpool-"@, name);
        lemma_wildcard_entry_wins(name, 131);
    }
    assert(classify_spec(rs, "ledThreadPool-1"@) == CoreTarget::LittleAndBig) by {
        let name = "ledThreadPool-1"@;
        assert(name.len() == 15);
        assert forall|j: int| 0 <= j < rs.len() && rs[j].priority == 100 implies #[trigger] rs[
            j
        ].pattern != name by {
            let p = rs[j].pattern;
            assert(p == name ==> p.len() == 15 && p[0] == name[0] && p[1] == name[1] && p[2] == name[2] && p[3] == name[3] && p[4] == name[4] && p[5] == name[5] && p[6] == name[6] && p[7] == name[7] && p[8] == name[8] && p[9] == name[9] && p[10] == name[10] && p[11] == name[11] && p[12] == name[12] && p[13] == name[13] && p[14] == name[14]);
        }
        law_star_literal_suffix("Dispatcher"@, name);
        assert(name.subrange(15 - 10, 15)[9] == name[14]);
        assert forall|j: int| 0 <= j < 132 && rs[j].priority == 50 implies !glob_spec(
            #[trigger] rs[j].pattern,
            name,
        ) by {
            let p = rs[j].pattern;
            if p[0] == '*' {
                assert(p == "*Dispatcher"@);
            } else if p[0] == '[' {
                lemma_pair_class_rejects(p, name);
            } else if p[0] != name[0] && p[0] != '?' {
                lemma_literal_mismatch(p, name, 0);
            } else if p[1] != name[1] && p[1] != '?' {
                lemma_literal_mismatch(p, name, 1);
            }
        }
        assert("ledThreadPool-*"@ =~= "ledThreadPool-"@.push('*'));
        assert(name.subrange(0, 14) =~= "ledThreadPool-"@);
        law_literal_prefix_star("ledThreadPool-"@, name);
        lemma_wildcard_entry_wins(name, 132);
    }
}

/// One thread name for each wildcard entry of the built-in table for audio,
/// loading and download threads that go to the little and big cores, with
/// its entry:
/// `HadesPool1` (`HadesPool*`), `HadesLibPool1` (`HadesLibPool*`), `SoundPool1` (`SoundPool*`),
/// `ijk_dash_pool_1` (`ijk_dash_pool_*`), `UnityChoreograp1` (`UnityChoreograp*`),
/// `Loading.1` (`Loading.*`), `FAsyncLoading1` (`FAsyncLoading*`),
/// `CriManaDecode1` (`CriManaDecode*`), `DownloadThreadP1` (`DownloadThreadP*`).
#[verifier::spinoff_prover]
#[verifier::rlimit(80)]
pub proof fn law_little_and_big_wildcard_names_loaders()
    ensures
        classify_spec(builtin_rules(), "HadesPool1"@) == CoreTarget::LittleAndBig,
        classify_spec(builtin_rules(), "HadesLibPool1"@) == CoreTarget::LittleAndBig,
        classify_spec(builtin_rules(), "SoundPool1"@) == CoreTarget::LittleAndBig,
        classify_spec(builtin_rules(), "ijk_dash_pool_1"@) == CoreTarget::LittleAndBig,
        classify_spec(builtin_rules(), "UnityChoreograp1"@) == CoreTarget::LittleAndBig,
        classify_spec(builtin_rules(), "Loading.1"@) == CoreTarget::LittleAndBig,
        classify_spec(builtin_rules(), "FAsyncLoading1"@) == CoreTarget::LittleAndBig,
        classify_spec(builtin_rules(), "CriManaDecode1"@) == CoreTarget::LittleAndBig,
        classify_spec(builtin_rules(), "DownloadThreadP1"@) == CoreTarget::LittleAndBig,
{
    let rs = builtin_rules();
    reveal_strlit("#pool-[0-9]*-thread*");
    reveal_strlit("*ColdPool*");
    reveal_strlit("*Dispatcher");
    reveal_strlit("*HotPool*");
    reveal_strlit("*ThreadPool*");
    reveal_strlit("1.raster");
    reveal_strlit("1.ui");
    reveal_strlit("2.ui");
    reveal_strlit("?.io");
    reveal_strlit("?.raster");
    reveal_strlit("?.ui");
    reveal_strlit("AILocalThread");
    reveal_strlit("AOutle*");
    reveal_strlit("APM_light-weigh");
    reveal_strlit("AndroidRender");
    reveal_strlit("AndroidUI");
    reveal_strlit("AnimationThread");
    reveal_strlit("AsyncTask*");
    reveal_strlit("AudioThread");
    reveal_strlit("AudioTrack");
    reveal_strlit("Binder:*");
    reveal_strlit("CRI*");
    reveal_strlit("CallbackHndlr");
    reveal_strlit("Chrome_ChildIOT");
    reveal_strlit("Chrome_IOThread");
    reveal_strlit("Chrome_InProcGp");
    reveal_strlit("Chrome_InProcRe");
    reveal_strlit("ChromiumNet*");
    reveal_strlit("CodecLooper*");
    reveal_strlit("Compositor");
    reveal_strlit("Compute*");
    reveal_strlit("CoreThread");
    reveal_strlit("CrRendererMain");
    reveal_strlit("CriManaDecode");
    reveal_strlit("CriManaDecode*");
    reveal_strlit("CriManaDecode1");
    reveal_strlit("DartWorker*");
    reveal_strlit("DefaultDispatch");
    reveal_strlit("DefaultExecutor");
    reveal_strlit("DispatchQueuePo");
    reveal_strlit("Dispatcher");
    reveal_strlit("DownloadThreadP");
    reveal_strlit("DownloadThreadP*");
    reveal_strlit("DownloadThreadP1");
    reveal_strlit("ExoPlayer:*");
    reveal_strlit("FAsyncLoading");
    reveal_strlit("FAsyncLoading*");
    reveal_strlit("FAsyncLoading1");
    reveal_strlit("FMOD*");
    reveal_strlit("GLThread*");
    reveal_strlit("GPM-DataThread");
    reveal_strlit("GameThread");
    reveal_strlit("Game[0-9]*");
    reveal_strlit("GcamViewfinder");
    reveal_strlit("Gecko");
    reveal_strlit("HadesLibPool");
    reveal_strlit("HadesLibPool*");
    reveal_strlit("HadesLibPool1");
    reveal_strlit("HadesPool");
    reveal_strlit("HadesPool*");
    reveal_strlit("HadesPool1");
    reveal_strlit("HeapTaskDaemon");
    reveal_strlit("HwBinder:*");
    reveal_strlit("IL2CPP*");
    reveal_strlit("IOThread*");
    reveal_strlit("IPC*");
    reveal_strlit("IPDL*");
    reveal_strlit("InputDispatcher");
    reveal_strlit("InsetsAnimation");
    reveal_strlit("JNISurfaceTextu");
    reveal_strlit("JavaBridge");
    reveal_strlit("Jit thread pool");
    reveal_strlit("Job.[Ww]orker*");
    reveal_strlit("JobThread*");
    reveal_strlit("Loading.");
    reveal_strlit("Loading.*");
    reveal_strlit("Loading.1");
    reveal_strlit("LogAppendWork");
    reveal_strlit("LogicThread");
    reveal_strlit("Lynx_JS");
    reveal_strlit("MainThread");
    reveal_strlit("MainThread*");
    reveal_strlit("Mainloop");
    reveal_strlit("MediaCodec*");
    reveal_strlit("MiniRainbowMain");
    reveal_strlit("MiniRenderThrea");
    reveal_strlit("NativeThread*");
    reveal_strlit("NetworkService");
    reveal_strlit("OkHttp*");
    reveal_strlit("PakMergeThread");
    reveal_strlit("Phenix-Schedule");
    reveal_strlit("PoolThread*");
    reveal_strlit("RHIThread");
    reveal_strlit("RHIThread*");
    reveal_strlit("RenderEngine");
    reveal_strlit("RenderThread");
    reveal_strlit("RenderThread*");
    reveal_strlit("RenderingThread");
    reveal_strlit("RxCachedThreadS");
    reveal_strlit("ShaderCompiling");
    reveal_strlit("Shared_w*");
    reveal_strlit("Socket Thread");
    reveal_strlit("SoundPool");
    reveal_strlit("SoundPool*");
    reveal_strlit("SoundPool1");
    reveal_strlit("Task*");
    reveal_strlit("TaskGraph*");
    reveal_strlit("Thread-*");
    reveal_strlit("ThreadPool*");
    reveal_strlit("ThreadPoolForeg*");
    reveal_strlit("ThreadPoolServi*");
    reveal_strlit("ThumbnailStorag");
    reveal_strlit("UEGameThread");
    reveal_strlit("UnityChoreo*");
    reveal_strlit("UnityChoreograp");
    reveal_strlit("UnityChoreograp*");
    reveal_strlit("UnityChoreograp1");
    reveal_strlit("UnityGfx*");
    reveal_strlit("UnityGfxDeviceW");
    reveal_strlit("UnityMain");
    reveal_strlit("UnityMultiRende*");
    reveal_strlit("UnityPreload");
    reveal_strlit("UnityPreload*");
    reveal_strlit("VCMainThread");
    reveal_strlit("VDecod*");
    reveal_strlit("VOutle*");
    reveal_strlit("VizCompositor");
    reveal_strlit("VizWebView");
    reveal_strlit("VulkanRenderMan");
    reveal_strlit("Web Content");
    reveal_strlit("Worker Thread");
    reveal_strlit("[Bb]inder:*");
    reveal_strlit("alsoft-mixer");
    reveal_strlit("arch_disk*");
    reveal_strlit("arch_disk_*");
    reveal_strlit("beacon-thread-*");
    reveal_strlit("binder:*");
    reveal_strlit("cached-pool-*");
    reveal_strlit("fileUploadQueue");
    reveal_strlit("files_database*");
    reveal_strlit("glide*");
    reveal_strlit("glide-*");
    reveal_strlit("hwui*");
    reveal_strlit("hwuiTask*");
    reveal_strlit("ijk_dash_pool_");
    reveal_strlit("ijk_dash_pool_*");
    reveal_strlit("ijk_dash_pool_1");
    reveal_strlit("io.worker*");
    reveal_strlit("ledThreadPool-*");
    reveal_strlit("looper_monitor");
    reveal_strlit("main");
    reveal_strlit("mali-*");
    reveal_strlit("mpv/*");
    reveal_strlit("mqt_*");
    reveal_strlit("onPool-worker-*");
    reveal_strlit("pivotal-pool-*");
    reveal_strlit("pool-[0-9]*-thread*");
    reveal_strlit("rx-pool-*");
    reveal_strlit("searchQueue");
    reveal_strlit("stageQueue*");
    reveal_strlit("storageQueue*");
    reveal_strlit("vrpool-*");
    assert("*Dispatcher"@ =~= seq!['*'] + "Dispatcher"@);
    assert(is_literal("Dispatcher"@));
    assert(classify_spec(rs, "HadesPool1"@) == CoreTarget::LittleAndBig) by {
        let name = "HadesPool1"@;
        assert(name.len() == 10);
        assert forall|j: int| 0 <= j < rs.len() && rs[j].priority == 100 implies #[trigger] rs[
            j
        ].pattern != name by {
            let p = rs[j].pattern;
            assert(p == name ==> p.len() == 10 && p[0] == name[0] && p[1] == name[1] && p[2] == name[2] && p[3] == name[3] && p[4] == name[4] && p[5] == name[5] && p[6] == name[6] && p[7] == name[7] && p[8] == name[8] && p[9] == name[9]);
        }
        law_star_literal_suffix("Dispatcher"@, name);
        assert(name.subrange(10 - 10, 10)[9] == name[9]);
        assert forall|j: int| 0 <= j < 135 && rs[j].priority == 50 && j != 133 && j != 134 implies !glob_spec(
            #[trigger] rs[j].pattern,
            name,
        ) by {
            let p = rs[j].pattern;
            if p[0] == '*' {
                assert(p == "*Dispatcher"@);
            } else if p[0] == '[' {
                lemma_pair_class_rejects(p, name);
            } else if p[0] != name[0] && p[0] != '?' {
                lemma_literal_mismatch(p, name, 0);
            } else if p[1] != name[1] && p[1] != '?' {
                lemma_literal_mismatch(p, name, 1);
            }
        }
        assert("HadesPool*"@ =~= "HadesPool"@.push('*'));
        assert(name.subrange(0, 9) =~= "HadesPool"@);
        law_literal_prefix_star("HadesPool"@, name);
        if glob_spec(rs[133].pattern, name) {
            lemma_wildcard_entry_wins(name, 133);
        } else if glob_spec(rs[134].pattern, name) {
            lemma_wildcard_entry_wins(name, 134);
        } else {
            lemma_wildcard_entry_wins(name, 135);
        }
    }
    assert(classify_spec(rs, "HadesLibPool1"@) == CoreTarget::LittleAndBig) by {
        let name = "HadesLibPool1"@;
        assert(name.len() == 13);
        assert forall|j: int| 0 <= j < rs.len() && rs[j].priority == 100 implies #[trigger] rs[
            j
        ].pattern != name by {
            let p = rs[j].pattern;
            assert(p == name ==> p.len() == 13 && p[0] == name[0] && p[1] == name[1] && p[2] == name[2] && p[3] == name[3] && p[4] == name[4] && p[5] == name[5] && p[6] == name[6] && p[7] == name[7] && p[8] == name[8] && p[9] == name[9] && p[10] == name[10] && p[11] == name[11] && p[12] == name[12]);
        }
        law_star_literal_suffix("Dispatcher"@, name);
        assert(name.subrange(13 - 10, 13)[9] == name[12]);
        assert forall|j: int| 0 <= j < 136 && rs[j].priority == 50 && j != 133 && j != 134 implies !glob_spec(
            #[trigger] rs[j].pattern,
            name,
        ) by {
            let p = rs[j].pattern;
            if p[0] == '*' {
                assert(p == "*Dispatcher"@);
            } else if p[0] == '[' {
                lemma_pair_class_rejects(p, name);
            } else if p[0] != name[0] && p[0] != '?' {
                lemma_literal_mismatch(p, name, 0);
            } else if p[1] != name[1] && p[1] != '?' {
                lemma_literal_mismatch(p, name, 1);
            } else if p[2] != name[2] && p[2] != '?' {
                lemma_literal_mismatch(p, name, 2);
            } else if p[3] != name[3] && p[3] != '?' {
                lemma_literal_mismatch(p, name, 3);
            } else if p[4] != name[4] && p[4] != '?' {
                lemma_literal_mismatch(p, name, 4);
            } else if p[5] != name[5] && p[5] != '?' {
                lemma_literal_mismatch(p, name, 5);
            }
        }
        assert("HadesLibPool*"@ =~= "HadesLibPool"@.push('*'));
        assert(name.subrange(0, 12) =~= "HadesLibPool"@);
        law_literal_prefix_star("HadesLibPool"@, name);
        if glob_spec(rs[133].pattern, name) {
            lemma_wildcard_entry_wins(name, 133);
        } else if glob_spec(rs[134].pattern, name) {
            lemma_wildcard_entry_wins(name, 134);
        } else {
            lemma_wildcard_entry_wins(name, 136);
        }
    }
    assert(classify_spec(rs, "SoundPool1"@) == CoreTarget::LittleAndBig) by {
        let name = "SoundPool1"@;
        assert(name.len() == 10);
        assert forall|j: int| 0 <= j < rs.len() && rs[j].priority == 100 implies #[trigger] rs[
            j
        ].pattern != name by {
            let p = rs[j].pattern;
            assert(p == name ==> p.len() == 10 && p[0] == name[0] && p[1] == name[1] && p[2] == name[2] && p[3] == name[3] && p[4] == name[4] && p[5] == name[5] && p[6] == name[6] && p[7] == name[7] && p[8] == name[8] && p[9] == name[9]);
        }
        law_star_literal_suffix("Dispatcher"@, name);
        assert(name.subrange(10 - 10, 10)[9] == name[9]);
        assert forall|j: int| 0 <= j < 140 && rs[j].priority == 50 && j != 133 && j != 134 && j != 137 implies !glob_spec(
            #[trigger] rs[j].pattern,
            name,
        ) by {
            let p = rs[j].pattern;
            if p[0] == '*' {
                assert(p == "*Dispatcher"@);
            } else if p[0] == '[' {
                lemma_pair_class_rejects(p, name);
            } else if p[0] != name[0] && p[0] != '?' {
                lemma_literal_mismatch(p, name, 0);
            } else if p[1] != name[1] && p[1] != '?' {
                lemma_literal_mismatch(p, name, 1);
            }
        }
        assert("SoundPool*"@ =~= "SoundPool"@.push('*'));
        assert(name.subrange(0, 9) =~= "SoundPool"@);
        law_literal_prefix_star("SoundPool"@, name);
        if glob_spec(rs[133].pattern, name) {
            lemma_wildcard_entry_wins(name, 133);
        } else if glob_spec(rs[134].pattern, name) {
            lemma_wildcard_entry_wins(name, 134);
        } else if glob_spec(rs[137].pattern, name) {
            lemma_wildcard_entry_wins(name, 137);
        } else {
            lemma_wildcard_entry_wins(name, 140);
        }
    }
    assert(classify_spec(rs, "ijk_dash_pool_1"@) == CoreTarget::LittleAndBig) by {
        let name = "ijk_dash_pool_1"@;
        assert(name.len() == 15);
        assert forall|j: int| 0 <= j < rs.len() && rs[j].priority == 100 implies #[trigger] rs[
            j
        ].pattern != name by {
            let p = rs[j].pattern;
            assert(p == name ==> p.len() == 15 && p[0] == name[0] && p[1] == name[1] && p[2] == name[2] && p[3] == name[3] && p[4] == name[4] && p[5] == name[5] && p[6] == name[6] && p[7] == name[7] && p[8] == name[8] && p[9] == name[9] && p[10] == name[10] && p[11] == name[11] && p[12] == name[12] && p[13] == name[13] && p[14] == name[14]);
        }
        law_star_literal_suffix("Dispatcher"@, name);
        assert(name.subrange(15 - 10, 15)[9] == name[14]);
        assert forall|j: int| 0 <= j < 141 && rs[j].priority == 50 && j != 133 && j != 134 && j != 137 implies !glob_spec(
            #[trigger] rs[j].pattern,
            name,
        ) by {
            let p = rs[j].pattern;
            if p[0] == '*' {
                assert(p == "*Dispatcher"@);
            } else if p[0] == '[' {
                lemma_pair_class_rejects(p, name);
            } else if p[0] != name[0] && p[0] != '?' {
                lemma_literal_mismatch(p, name, 0);
            } else if p[1] != name[1] && p[1] != '?' {
                lemma_literal_mismatch(p, name, 1);
            }
        }
        assert("ijk_dash_pool_*"@ =~= "ijk_dash_pool_"@.push('*'));
        assert(name.subrange(0, 14) =~= "ijk_dash_pool_"@);
        law_literal_prefix_star("ijk_dash_pool_"@, name);
        if glob_spec(rs[133].pattern, name) {
            lemma_wildcard_entry_wins(name, 133);
        } else if glob_spec(rs[134].pattern, name) {
            lemma_wildcard_entry_wins(name, 134);
        } else if glob_spec(rs[137].pattern, name) {
            lemma_wildcard_entry_wins(name, 137);
        } else {
            lemma_wildcard_entry_wins(name, 141);
        }
    }
    assert(classify_spec(rs, "UnityChoreograp1"@) == CoreTarget::LittleAndBig) by {
        let name = "UnityChoreograp1"@;
        assert(name.len() == 16);
        assert forall|j: int| 0 <= j < rs.len() && rs[j].priority == 100 implies #[trigger] rs[
            j
        ].pattern != name by {
            let p = rs[j].pattern;
            assert(p == name ==> p.len() == 16 && p[0] == name[0] && p[1] == name[1] && p[2] == name[2] && p[3] == name[3] && p[4] == name[4] && p[5] == name[5] && p[6] == name[6] && p[7] == name[7] && p[8] == name[8] && p[9] == name[9] && p[10] == name[10] && p[11] == name[11] && p[12] == name[12] && p[13] == name[13] && p[14] == name[14] && p[15] == name[15]);
        }
        law_star_literal_suffix("Dispatcher"@, name);
        assert(name.subrange(16 - 10, 16)[9] == name[15]);
        assert forall|j: int| 0 <= j < 142 && rs[j].priority == 50 && j != 133 && j != 134 && j != 137 implies !glob_spec(
            #[trigger] rs[j].pattern,
            name,
        ) by {
            let p = rs[j].pattern;
            if p[0] == '*' {
                assert(p == "*Dispatcher"@);
            } else if p[0] == '[' {
                lemma_pair_class_rejects(p, name);
            } else if p[0] != name[0] && p[0] != '?' {
                lemma_literal_mismatch(p, name, 0);
            } else if p[1] != name[1] && p[1] != '?' {
                lemma_literal_mismatch(p, name, 1);
            } else if p[2] != name[2] && p[2] != '?' {
                lemma_literal_mismatch(p, name, 2);
            } else if p[3] != name[3] && p[3] != '?' {
                lemma_literal_mismatch(p, name, 3);
            } else if p[4] != name[4] && p[4] != '?' {
                lemma_literal_mismatch(p, name, 4);
            } else if p[5] != name[5] && p[5] != '?' {
                lemma_literal_mismatch(p, name, 5);
            }
        }
        assert("UnityChoreograp*"@ =~= "UnityChoreograp"@.push('*'));
        assert(name.subrange(0, 15) =~= "UnityChoreograp"@);
        law_literal_prefix_star("UnityChoreograp"@, name);
        if glob_spec(rs[133].pattern, name) {
            lemma_wildcard_entry_wins(name, 133);
        } else if glob_spec(rs[134].pattern, name) {
            lemma_wildcard_entry_wins(name, 134);
        } else if glob_spec(rs[137].pattern, name) {
            lemma_wildcard_entry_wins(name, 137);
        } else {
            lemma_wildcard_entry_wins(name, 142);
        }
    }
    assert(classify_spec(rs, "Loading.1"@) == CoreTarget::LittleAndBig) by {
        let name = "Loading.1"@;
        assert(name.len() == 9);
        assert forall|j: int| 0 <= j < rs.len() && rs[j].priority == 100 implies #[trigger] rs[
            j
        ].pattern != name by {
            let p = rs[j].pattern;
            assert(p == name ==> p.len() == 9 && p[0] == name[0] && p[1] == name[1] && p[2] == name[2] && p[3] == name[3] && p[4] == name[4] && p[5] == name[5] && p[6] == name[6] && p[7] == name[7] && p[8] == name[8]);
        }
        law_star_literal_suffix("Dispatcher"@, name);
        assert(name.len() < 10);
        assert forall|j: int| 0 <= j < 145 && rs[j].priority == 50 && j != 133 && j != 134 && j != 137 implies !glob_spec(
            #[trigger] rs[j].pattern,
            name,
        ) by {
            let p = rs[j].pattern;
            if p[0] == '*' {
                assert(p == "*Dispatcher"@);
            } else if p[0] == '[' {
                lemma_pair_class_rejects(p, name);
            } else if p[0] != name[0] && p[0] != '?' {
                lemma_literal_mismatch(p, name, 0);
            } else if p[1] != name[1] && p[1] != '?' {
                lemma_literal_mismatch(p, name, 1);
            }
        }
        assert("Loading.*"@ =~= "Loading."@.push('*'));
        assert(name.subrange(0, 8) =~= "Loading."@);
        law_literal_prefix_star("Loading."@, name);
        if glob_spec(rs[133].pattern, name) {
            lemma_wildcard_entry_wins(name, 133);
        } else if glob_spec(rs[134].pattern, name) {
            lemma_wildcard_entry_wins(name, 134);
        } else if glob_spec(rs[137].pattern, name) {
            lemma_wildcard_entry_wins(name, 137);
        } else {
            lemma_wildcard_entry_wins(name, 145);
        }
    }
    assert(classify_spec(rs, "FAsyncLoading1"@) == CoreTarget::LittleAndBig) by {
        let name = "FAsyncLoading1"@;
        assert(name.len() == 14);
        assert forall|j: int| 0 <= j < rs.len() && rs[j].priority == 100 implies #[trigger] rs[
            j
        ].pattern != name by {
            let p = rs[j].pattern;
            assert(p == name ==> p.len() == 14 && p[0] == name[0] && p[1] == name[1] && p[2] == name[2] && p[3] == name[3] && p[4] == name[4] && p[5] == name[5] && p[6] == name[6] && p[7] == name[7] && p[8] == name[8] && p[9] == name[9] && p[10] == name[10] && p[11] == name[11] && p[12] == name[12] && p[13] == name[13]);
        }
        law_star_literal_suffix("Dispatcher"@, name);
        assert(name.subrange(14 - 10, 14)[9] == name[13]);
        assert forall|j: int| 0 <= j < 146 && rs[j].priority == 50 && j != 133 && j != 134 && j != 137 implies !glob_spec(
            #[trigger] rs[j].pattern,
            name,
        ) by {
            let p = rs[j].pattern;
            if p[0] == '*' {
                assert(p == "*Dispatcher"@);
            } else if p[0] == '[' {
                lemma_pair_class_rejects(p, name);
            } else if p[0] != name[0] && p[0] != '?' {
                lemma_literal_mismatch(p, name, 0);
            } else if p[1] != name[1] && p[1] != '?' {
                lemma_literal_mismatch(p, name, 1);
            }
        }
        assert("FAsyncLoading*"@ =~= "FAsyncLoading"@.push('*'));
        assert(name.subrange(0, 13) =~= "FAsyncLoading"@);
        law_literal_prefix_star("FAsyncLoading"@, name);
        if glob_spec(rs[133].pattern, name) {
            lemma_wildcard_entry_wins(name, 133);
        } else if glob_spec(rs[134].pattern, name) {
            lemma_wildcard_entry_wins(name, 134);
        } else if glob_spec(rs[137].pattern, name) {
            lemma_wildcard_entry_wins(name, 137);
        } else {
            lemma_wildcard_entry_wins(name, 146);
        }
    }
    assert(classify_spec(rs, "CriManaDecode1"@) == CoreTarget::LittleAndBig) by {
        let name = "CriManaDecode1"@;
        assert(name.len() == 14);
        assert forall|j: int| 0 <= j < rs.len() && rs[j].priority == 100 implies #[trigger] rs[
            j
        ].pattern != name by {
            let p = rs[j].pattern;
            assert(p == name ==> p.len() == 14 && p[0] == name[0] && p[1] == name[1] && p[2] == name[2] && p[3] == name[3] && p[4] == name[4] && p[5] == name[5] && p[6] == name[6] && p[7] == name[7] && p[8] == name[8] && p[9] == name[9] && p[10] == name[10] && p[11] == name[11] && p[12] == name[12] && p[13] == name[13]);
        }
        law_star_literal_suffix("Dispatcher"@, name);
        assert(name.subrange(14 - 10, 14)[9] == name[13]);
        assert forall|j: int| 0 <= j < 147 && rs[j].priority == 50 && j != 133 && j != 134 && j != 137 implies !glob_spec(
            #[trigger] rs[j].pattern,
            name,
        ) by {
            let p = rs[j].pattern;
            if p[0] == '*' {
                assert(p == "*Dispatcher"@);
            } else if p[0] == '[' {
                lemma_pair_class_rejects(p, name);
            } else if p[0] != name[0] && p[0] != '?' {
                lemma_literal_mismatch(p, name, 0);
            } else if p[1] != name[1] && p[1] != '?' {
                lemma_literal_mismatch(p, name, 1);
            }
        }
        assert("CriManaDecode*"@ =~= "CriManaDecode"@.push('*'));
        assert(name.subrange(0, 13) =~= "CriManaDecode"@);
        law_literal_prefix_star("CriManaDecode"@, name);
        if glob_spec(rs[133].pattern, name) {
            lemma_wildcard_entry_wins(name, 133);
        } else if glob_spec(rs[134].pattern, name) {
            lemma_wildcard_entry_wins(name, 134);
        } else if glob_spec(rs[137].pattern, name) {
            lemma_wildcard_entry_wins(name, 137);
        } else {
            lemma_wildcard_entry_wins(name, 147);
        }
    }
    assert(classify_spec(rs, "DownloadThreadP1"@) == CoreTarget::LittleAndBig) by {
        let name = "DownloadThreadP1"@;
        assert(name.len() == 16);
        assert forall|j: int| 0 <= j < rs.len() && rs[j].priority == 100 implies #[trigger] rs[
            j
        ].pattern != name by {
            let p = rs[j].pattern;
            assert(p == name ==> p.len() == 16 && p[0] == name[0] && p[1] == name[1] && p[2] == name[2] && p[3] == name[3] && p[4] == name[4] && p[5] == name[5] && p[6] == name[6] && p[7] == name[7] && p[8] == name[8] && p[9] == name[9] && p[10] == name[10] && p[11] == name[11] && p[12] == name[12] && p[13] == name[13] && p[14] == name[14] && p[15] == name[15]);
        }
        law_star_literal_suffix("Dispatcher"@, name);
        assert(name.subrange(16 - 10, 16)[9] == name[15]);
        assert forall|j: int| 0 <= j < 148 && rs[j].priority == 50 && j != 133 && j != 134 && j != 137 implies !glob_spec(
            #[trigger] rs[j].pattern,
            name,
        ) by {
            let p = rs[j].pattern;
            if p[0] == '*' {
                assert(p == "*Dispatcher"@);
            } else if p[0] == '[' {
                lemma_pair_class_rejects(p, name);
            } else if p[0] != name[0] && p[0] != '?' {
                lemma_literal_mismatch(p, name, 0);
            } else if p[1] != name[1] && p[1] != '?' {
                lemma_literal_mismatch(p, name, 1);
            }
        }
        assert("DownloadThreadP*"@ =~= "DownloadThreadP"@.push('*'));
        assert(name.subrange(0, 15) =~= "DownloadThreadP"@);
        law_literal_prefix_star("DownloadThreadP"@, name);
        if glob_spec(rs[133].pattern, name) {
            lemma_wildcard_entry_wins(name, 133);
        } else if glob_spec(rs[134].pattern, name) {
            lemma_wildcard_entry_wins(name, 134);
        } else if glob_spec(rs[137].pattern, name) {
            lemma_wildcard_entry_wins(name, 137);
        } else {
            lemma_wildcard_entry_wins(name, 148);
        }
    }
}

/// One thread name for each wildcard entry of the built-in table that sends
/// threads to the little cores, with its entry:
/// `SoundDecoder1` (`SoundDecoder*`), `decodeQueue1` (`decodeQueue*`), `Apollo-1` (`Apollo-*`).
#[verifier::spinoff_prover]
#[verifier::rlimit(80)]
pub proof fn law_little_wildcard_names()
    ensures
        classify_spec(builtin_rules(), "SoundDecoder1"@) == CoreTarget::Little,
        classify_spec(builtin_rules(), "decodeQueue1"@) == CoreTarget::Little,
        classify_spec(builtin_rules(), "Apollo-1"@) == CoreTarget::Little,
{
    let rs = builtin_rules();
    reveal_strlit("#pool-[0-9]*-thread*");
    reveal_strlit("*ColdPool*");
    reveal_strlit("*Dispatcher");
    reveal_strlit("*HotPool*");
    reveal_strlit("*ThreadPool*");
    reveal_strlit("1.raster");
    reveal_strlit("1.ui");
    reveal_strlit("2.ui");
    reveal_strlit("?.io");
    reveal_strlit("?.raster");
    reveal_strlit("?.ui");
    reveal_strlit("AILocalThread");
    reveal_strlit("AOutle*");
    reveal_strlit("APM_light-weigh");
    reveal_strlit("AndroidRender");
    reveal_strlit("AndroidUI");
    reveal_strlit("AnimationThread");
    reveal_strlit("Apollo-");
    reveal_strlit("Apollo-*");
    reveal_strlit("Apollo-1");
    reveal_strlit("AsyncTask*");
    reveal_strlit("AudioThread");
    reveal_strlit("AudioTrack");
    reveal_strlit("Binder:*");
    reveal_strlit("CRI*");
    reveal_strlit("CallbackHndlr");
    reveal_strlit("Chrome_ChildIOT");
    reveal_strlit("Chrome_IOThread");
    reveal_strlit("Chrome_InProcGp");
    reveal_strlit("Chrome_InProcRe");
    reveal_strlit("ChromiumNet*");
    reveal_strlit("CodecLooper*");
    reveal_strlit("ColdPool");
    reveal_strlit("Compositor");
    reveal_strlit("Compute*");
    reveal_strlit("CoreThread");
    reveal_strlit("CrRendererMain");
    reveal_strlit("CriManaDecode*");
    reveal_strlit("DartWorker*");
    reveal_strlit("DefaultDispatch");
    reveal_strlit("DefaultExecutor");
    reveal_strlit("DispatchQueuePo");
    reveal_strlit("Dispatcher");
    reveal_strlit("DownloadThreadP*");
    reveal_strlit("ExoPlayer:*");
    reveal_strlit("FAsyncLoading*");
    reveal_strlit("FMOD*");
    reveal_strlit("GLThread*");
    reveal_strlit("GPM-DataThread");
    reveal_strlit("GameThread");
    reveal_strlit("Game[0-9]*");
    reveal_strlit("GcamViewfinder");
    reveal_strlit("Gecko");
    reveal_strlit("HadesLibPool*");
    reveal_strlit("HadesPool*");
    reveal_strlit("HeapTaskDaemon");
    reveal_strlit("HotPool");
    reveal_strlit("HwBinder:*");
    reveal_strlit("IL2CPP*");
    reveal_strlit("IO*Thread*");
    reveal_strlit("IOThread*");
    reveal_strlit("IPC*");
    reveal_strlit("IPDL*");
    reveal_strlit("InputDispatcher");
    reveal_strlit("InsetsAnimation");
    reveal_strlit("JNISurfaceTextu");
    reveal_strlit("JavaBridge");
    reveal_strlit("Jit thread pool");
    reveal_strlit("Job.[Ww]orker*");
    reveal_strlit("JobThread*");
    reveal_strlit("Loading.*");
    reveal_strlit("LogAppendWork");
    reveal_strlit("LogicThread");
    reveal_strlit("Lynx_JS");
    reveal_strlit("MainThread");
    reveal_strlit("MainThread*");
    reveal_strlit("Mainloop");
    reveal_strlit("MediaCodec*");
    reveal_strlit("MiniRainbowMain");
    reveal_strlit("MiniRenderThrea");
    reveal_strlit("NativeThread*");
    reveal_strlit("NetworkService");
    reveal_strlit("OkHttp*");
    reveal_strlit("PakMergeThread");
    reveal_strlit("Phenix-Schedule");
    reveal_strlit("PoolThread*");
    reveal_strlit("RHIThread");
    reveal_strlit("RHIThread*");
    reveal_strlit("RenderEngine");
    reveal_strlit("RenderThread");
    reveal_strlit("RenderThread*");
    reveal_strlit("RenderingThread");
    reveal_strlit("RxCachedThreadS");
    reveal_strlit("ShaderCompiling");
    reveal_strlit("Shared_w*");
    reveal_strlit("Socket Thread");
    reveal_strlit("SoundDecoder");
    reveal_strlit("SoundDecoder*");
    reveal_strlit("SoundDecoder1");
    reveal_strlit("SoundPool*");
    reveal_strlit("Task*");
    reveal_strlit("TaskGraph*");
    reveal_strlit("Thread-*");
    reveal_strlit("ThreadPool");
    reveal_strlit("ThreadPool*");
    reveal_strlit("ThreadPoolForeg*");
    reveal_strlit("ThreadPoolServi*");
    reveal_strlit("ThumbnailStorag");
    reveal_strlit("UEGameThread");
    reveal_strlit("UnityChoreo*");
    reveal_strlit("UnityChoreograp*");
    reveal_strlit("UnityGfx*");
    reveal_strlit("UnityGfxDeviceW");
    reveal_strlit("UnityMain");
    reveal_strlit("UnityMultiRende*");
    reveal_strlit("UnityPreload");
    reveal_strlit("UnityPreload*");
    reveal_strlit("VCMainThread");
    reveal_strlit("VDecod*");
    reveal_strlit("VOutle*");
    reveal_strlit("VizCompositor");
    reveal_strlit("VizWebView");
    reveal_strlit("VulkanRenderMan");
    reveal_strlit("Web Content");
    reveal_strlit("Worker Thread");
    reveal_strlit("[Bb]inder:*");
    reveal_strlit("alsoft-mixer");
    reveal_strlit("arch_disk*");
    reveal_strlit("arch_disk_*");
    reveal_strlit("beacon-thread-*");
    reveal_strlit("binder:*");
    reveal_strlit("cached-pool-*");
    reveal_strlit("decodeQueue");
    reveal_strlit("decodeQueue*");
    reveal_strlit("decodeQueue1");
    reveal_strlit("fileUploadQueue");
    reveal_strlit("files_database*");
    reveal_strlit("glide*");
    reveal_strlit("glide-*");
    reveal_strlit("hwui*");
    reveal_strlit("hwuiTask*");
    reveal_strlit("ijk_dash_pool_*");
    reveal_strlit("io.worker*");
    reveal_strlit("ledThreadPool-*");
    reveal_strlit("looper_monitor");
    reveal_strlit("main");
    reveal_strlit("mali-*");
    reveal_strlit("mpv/*");
    reveal_strlit("mqt_*");
    reveal_strlit("onPool-worker-*");
    reveal_strlit("pivotal-pool-*");
    reveal_strlit("pool-[0-9]*-thread*");
    reveal_strlit("rx-pool-*");
    reveal_strlit("searchQueue");
    reveal_strlit("stageQueue*");
    reveal_strlit("storageQueue*");
    reveal_strlit("vrpool-*");
    assert("*Dispatcher"@ =~= seq!['*'] + "Dispatcher"@);
    assert(is_literal("Dispatcher"@));
    assert(classify_spec(rs, "SoundDecoder1"@) == CoreTarget::Little) by {
        let name = "SoundDecoder1"@;
        assert(name.len() == 13);
        assert forall|j: int| 0 <= j < rs.len() && rs[j].priority == 100 implies #[trigger] rs[
            j
        ].pattern != name by {
            let p = rs[j].pattern;
            assert(p == name ==> p.len() == 13 && p[0] == name[0] && p[1] == name[1] && p[2] == name[2] && p[3] == name[3] && p[4] == name[4] && p[5] == name[5] && p[6] == name[6] && p[7] == name[7] && p[8] == name[8] && p[9] == name[9] && p[10] == name[10] && p[11] == name[11] && p[12] == name[12]);
        }
        law_star_literal_suffix("Dispatcher"@, name);
        assert(name.subrange(13 - 10, 13)[9] == name[12]);
        assert forall|j: int| 0 <= j < 153 && rs[j].priority == 50 && j != 133 && j != 134 && j != 137 implies !glob_spec(
            #[trigger] rs[j].pattern,
            name,
        ) by {
            let p = rs[j].pattern;
            if p[0] == '*' {
                assert(p == "*Dispatcher"@);
            } else if p[0] == '[' {
                lemma_pair_class_rejects(p, name);
            } else if p[0] != name[0] && p[0] != '?' {
                lemma_literal_mismatch(p, name, 0);
            } else if p[1] != name[1] && p[1] != '?' {
                lemma_literal_mismatch(p, name, 1);
            } else if p[2] != name[2] && p[2] != '?' {
                lemma_literal_mismatch(p, name, 2);
            } else if p[3] != name[3] && p[3] != '?' {
                lemma_literal_mismatch(p, name, 3);
            } else if p[4] != name[4] && p[4] != '?' {
                lemma_literal_mismatch(p, name, 4);
            } else if p[5] != name[5] && p[5] != '?' {
                lemma_literal_mismatch(p, name, 5);
            }
        }
        assert("SoundDecoder*"@ =~= "SoundDecoder"@.push('*'));
        assert(name.subrange(0, 12) =~= "SoundDecoder"@);
        law_literal_prefix_star("SoundDecoder"@, name);
        assert(rs[133].pattern =~= seq!['*'] + "ColdPool"@ + seq!['*']);
        assert(is_literal("ColdPool"@));
        law_star_literal_contains("ColdPool"@, name);
        assert forall|i: int| 0 <= i < name.len() implies #[trigger] name[i] != 'C' by {}
        if glob_spec(rs[133].pattern, name) {
            let k = choose|k: int|
                0 <= k && k + 8 <= name.len() && #[trigger] name.subrange(k, k + 8) == "ColdPool"@;
            assert(name.subrange(k, k + 8)[0] == name[k]);
        }
        assert(rs[134].pattern =~= seq!['*'] + "HotPool"@ + seq!['*']);
        assert(is_literal("HotPool"@));
        law_star_literal_contains("HotPool"@, name);
        assert forall|i: int| 0 <= i < name.len() implies #[trigger] name[i] != 'H' by {}
        if glob_spec(rs[134].pattern, name) {
            let k = choose|k: int|
                0 <= k && k + 7 <= name.len() && #[trigger] name.subrange(k, k + 7) == "HotPool"@;
            assert(name.subrange(k, k + 7)[0] == name[k]);
        }
        assert(rs[137].pattern =~= seq!['*'] + "ThreadPool"@ + seq!['*']);
        assert(is_literal("ThreadPool"@));
        law_star_literal_contains("ThreadPool"@, name);
        assert forall|i: int| 0 <= i < name.len() implies #[trigger] name[i] != 'T' by {}
        if glob_spec(rs[137].pattern, name) {
            let k = choose|k: int|
                0 <= k && k + 10 <= name.len() && #[trigger] name.subrange(k, k + 10) == "ThreadPool"@;
            assert(name.subrange(k, k + 10)[0] == name[k]);
        }
        lemma_wildcard_entry_wins(name, 153);
    }
    assert(classify_spec(rs, "decodeQueue1"@) == CoreTarget::Little) by {
        let name = "decodeQueue1"@;
        assert(name.len() == 12);
        assert forall|j: int| 0 <= j < rs.len() && rs[j].priority == 100 implies #[trigger] rs[
            j
        ].pattern != name by {
            let p = rs[j].pattern;
            assert(p == name ==> p.len() == 12 && p[0] == name[0] && p[1] == name[1] && p[2] == name[2] && p[3] == name[3] && p[4] == name[4] && p[5] == name[5] && p[6] == name[6] && p[7] == name[7] && p[8] == name[8] && p[9] == name[9] && p[10] == name[10] && p[11] == name[11]);
        }
        law_star_literal_suffix("Dispatcher"@, name);
        assert(name.subrange(12 - 10, 12)[9] == name[11]);
        assert forall|j: int| 0 <= j < 154 && rs[j].priority == 50 && j != 133 && j != 134 && j != 137 implies !glob_spec(
            #[trigger] rs[j].pattern,
            name,
        ) by {
            let p = rs[j].pattern;
            if p[0] == '*' {
                assert(p == "*Dispatcher"@);
            } else if p[0] == '[' {
                lemma_pair_class_rejects(p, name);
            } else if p[0] != name[0] && p[0] != '?' {
                lemma_literal_mismatch(p, name, 0);
            } else if p[1] != name[1] && p[1] != '?' {
                lemma_literal_mismatch(p, name, 1);
            }
        }
        assert("decodeQueue*"@ =~= "decodeQueue"@.push('*'));
        assert(name.subrange(0, 11) =~= "decodeQueue"@);
        law_literal_prefix_star("decodeQueue"@, name);
        assert(rs[133].pattern =~= seq!['*'] + "ColdPool"@ + seq!['*']);
        assert(is_literal("ColdPool"@));
        law_star_literal_contains("ColdPool"@, name);
        assert forall|i: int| 0 <= i < name.len() implies #[trigger] name[i] != 'C' by {}
        if glob_spec(rs[133].pattern, name) {
            let k = choose|k: int|
                0 <= k && k + 8 <= name.len() && #[trigger] name.subrange(k, k + 8) == "ColdPool"@;
            assert(name.subrange(k, k + 8)[0] == name[k]);
        }
        assert(rs[134].pattern =~= seq!['*'] + "HotPool"@ + seq!['*']);
        assert(is_literal("HotPool"@));
        law_star_literal_contains("HotPool"@, name);
        assert forall|i: int| 0 <= i < name.len() implies #[trigger] name[i] != 'H' by {}
        if glob_spec(rs[134].pattern, name) {
            let k = choose|k: int|
                0 <= k && k + 7 <= name.len() && #[trigger] name.subrange(k, k + 7) == "HotPool"@;
            assert(name.subrange(k, k + 7)[0] == name[k]);
        }
        assert(rs[137].pattern =~= seq!['*'] + "ThreadPool"@ + seq!['*']);
        assert(is_literal("ThreadPool"@));
        law_star_literal_contains("ThreadPool"@, name);
        assert forall|i: int| 0 <= i < name.len() implies #[trigger] name[i] != 'T' by {}
        if glob_spec(rs[137].pattern, name) {
            let k = choose|k: int|
                0 <= k && k + 10 <= name.len() && #[trigger] name.subrange(k, k + 10) == "ThreadPool"@;
            assert(name.subrange(k, k + 10)[0] == name[k]);
        }
        lemma_wildcard_entry_wins(name, 154);
    }
    assert(classify_spec(rs, "Apollo-1"@) == CoreTarget::Little) by {
        let name = "Apollo-1"@;
        assert(name.len() == 8);
        assert forall|j: int| 0 <= j < rs.len() && rs[j].priority == 100 implies #[trigger] rs[
            j
        ].pattern != name by {
            let p = rs[j].pattern;
            assert(p == name ==> p.len() == 8 && p[0] == name[0] && p[1] == name[1] && p[2] == name[2] && p[3] == name[3] && p[4] == name[4] && p[5] == name[5] && p[6] == name[6] && p[7] == name[7]);
        }
        law_star_literal_suffix("Dispatcher"@, name);
        assert(name.len() < 10);
        assert forall|j: int| 0 <= j < 156 && rs[j].priority == 50 && j != 133 && j != 134 && j != 137 implies !glob_spec(
            #[trigger] rs[j].pattern,
            name,
        ) by {
            let p = rs[j].pattern;
            if p[0] == '*' {
                assert(p == "*Dispatcher"@);
            } else if p[0] == '[' {
                lemma_pair_class_rejects(p, name);
            } else if p[0] != name[0] && p[0] != '?' {
                lemma_literal_mismatch(p, name, 0);
            } else if p[1] != name[1] && p[1] != '?' {
                lemma_literal_mismatch(p, name, 1);
            }
        }
        assert("Apollo-*"@ =~= "Apollo-"@.push('*'));
        assert(name.subrange(0, 7) =~= "Apollo-"@);
        law_literal_prefix_star("Apollo-"@, name);
        assert(rs[133].pattern =~= seq!['*'] + "ColdPool"@ + seq!['*']);
        assert(is_literal("ColdPool"@));
        law_star_literal_contains("ColdPool"@, name);
        assert forall|i: int| 0 <= i < name.len() implies #[trigger] name[i] != 'C' by {}
        if glob_spec(rs[133].pattern, name) {
            let k = choose|k: int|
                0 <= k && k + 8 <= name.len() && #[trigger] name.subrange(k, k + 8) == "ColdPool"@;
            assert(name.subrange(k, k + 8)[0] == name[k]);
        }
        assert(rs[134].pattern =~= seq!['*'] + "HotPool"@ + seq!['*']);
        assert(is_literal("HotPool"@));
        law_star_literal_contains("HotPool"@, name);
        assert forall|i: int| 0 <= i < name.len() implies #[trigger] name[i] != 'H' by {}
        if glob_spec(rs[134].pattern, name) {
            let k = choose|k: int|
                0 <= k && k + 7 <= name.len() && #[trigger] name.subrange(k, k + 7) == "HotPool"@;
            assert(name.subrange(k, k + 7)[0] == name[k]);
        }
        assert(rs[137].pattern =~= seq!['*'] + "ThreadPool"@ + seq!['*']);
        assert(is_literal("ThreadPool"@));
        law_star_literal_contains("ThreadPool"@, name);
        assert forall|i: int| 0 <= i < name.len() implies #[trigger] name[i] != 'T' by {}
        if glob_spec(rs[137].pattern, name) {
            let k = choose|k: int|
                0 <= k && k + 10 <= name.len() && #[trigger] name.subrange(k, k + 10) == "ThreadPool"@;
            assert(name.subrange(k, k + 10)[0] == name[k]);
        }
        lemma_wildcard_entry_wins(name, 156);
    }
}

/// One thread name for each entry of the built-in table whose pattern has a
/// fixed length (`?` standing for any one character), with its entry:
/// `2.raster` (`?.raster`), `3.ui` (`?.ui`), `VizCompositor` (`VizCompositor`), `1.io` (`?.io`).
#[verifier::spinoff_prover]
#[verifier::rlimit(80)]
pub proof fn law_fixed_length_wildcard_names()
    ensures
        classify_spec(builtin_rules(), "2.raster"@) == CoreTarget::BigAndPrime,
        classify_spec(builtin_rules(), "3.ui"@) == CoreTarget::BigAndPrime,
        classify_spec(builtin_rules(), "VizCompositor"@) == CoreTarget::Big,
        classify_spec(builtin_rules(), "1.io"@) == CoreTarget::Big,
{
    let rs = builtin_rules();
    reveal_strlit("*Dispatcher");
    reveal_strlit("1.io");
    reveal_strlit("1.raster");
    reveal_strlit("1.ui");
    reveal_strlit("2.raster");
    reveal_strlit("2.ui");
    reveal_strlit("3.ui");
    reveal_strlit("?.io");
    reveal_strlit("?.raster");
    reveal_strlit("?.ui");
    reveal_strlit("AILocalThread");
    reveal_strlit("APM_light-weigh");
    reveal_strlit("AndroidRender");
    reveal_strlit("AndroidUI");
    reveal_strlit("AnimationThread");
    reveal_strlit("AsyncTask*");
    reveal_strlit("AudioThread");
    reveal_strlit("AudioTrack");
    reveal_strlit("CallbackHndlr");
    reveal_strlit("Chrome_ChildIOT");
    reveal_strlit("Chrome_IOThread");
    reveal_strlit("Chrome_InProcGp");
    reveal_strlit("Chrome_InProcRe");
    reveal_strlit("Compositor");
    reveal_strlit("CoreThread");
    reveal_strlit("CrRendererMain");
    reveal_strlit("DartWorker*");
    reveal_strlit("DefaultDispatch");
    reveal_strlit("DefaultExecutor");
    reveal_strlit("DispatchQueuePo");
    reveal_strlit("Dispatcher");
    reveal_strlit("GLThread*");
    reveal_strlit("GPM-DataThread");
    reveal_strlit("GameThread");
    reveal_strlit("Game[0-9]*");
    reveal_strlit("GcamViewfinder");
    reveal_strlit("Gecko");
    reveal_strlit("HeapTaskDaemon");
    reveal_strlit("IL2CPP*");
    reveal_strlit("IOThread*");
    reveal_strlit("InputDispatcher");
    reveal_strlit("InsetsAnimation");
    reveal_strlit("JNISurfaceTextu");
    reveal_strlit("JavaBridge");
    reveal_strlit("Jit thread pool");
    reveal_strlit("Job.[Ww]orker*");
    reveal_strlit("LogAppendWork");
    reveal_strlit("LogicThread");
    reveal_strlit("Lynx_JS");
    reveal_strlit("MainThread");
    reveal_strlit("Mainloop");
    reveal_strlit("MiniRainbowMain");
    reveal_strlit("MiniRenderThrea");
    reveal_strlit("NetworkService");
    reveal_strlit("PakMergeThread");
    reveal_strlit("Phenix-Schedule");
    reveal_strlit("RHIThread");
    reveal_strlit("RHIThread*");
    reveal_strlit("RenderEngine");
    reveal_strlit("RenderThread");
    reveal_strlit("RenderThread*");
    reveal_strlit("RenderingThread");
    reveal_strlit("RxCachedThreadS");
    reveal_strlit("ShaderCompiling");
    reveal_strlit("Socket Thread");
    reveal_strlit("TaskGraph*");
    reveal_strlit("ThumbnailStorag");
    reveal_strlit("UEGameThread");
    reveal_strlit("UnityGfx*");
    reveal_strlit("UnityGfxDeviceW");
    reveal_strlit("UnityMain");
    reveal_strlit("UnityMultiRende*");
    reveal_strlit("UnityPreload");
    reveal_strlit("UnityPreload*");
    reveal_strlit("VCMainThread");
    reveal_strlit("VDecod*");
    reveal_strlit("VizCompositor");
    reveal_strlit("VizWebView");
    reveal_strlit("VulkanRenderMan");
    reveal_strlit("Web Content");
    reveal_strlit("Worker Thread");
    reveal_strlit("alsoft-mixer");
    reveal_strlit("arch_disk*");
    reveal_strlit("arch_disk_*");
    reveal_strlit("fileUploadQueue");
    reveal_strlit("files_database*");
    reveal_strlit("glide*");
    reveal_strlit("glide-*");
    reveal_strlit("hwui*");
    reveal_strlit("hwuiTask*");
    reveal_strlit("looper_monitor");
    reveal_strlit("main");
    reveal_strlit("mali-*");
    reveal_strlit("mqt_*");
    reveal_strlit("searchQueue");
    reveal_strlit("stageQueue*");
    assert("*Dispatcher"@ =~= seq!['*'] + "Dispatcher"@);
    assert(is_literal("Dispatcher"@));
    assert(classify_spec(rs, "2.raster"@) == CoreTarget::BigAndPrime) by {
        let name = "2.raster"@;
        assert(name.len() == 8);
        assert forall|j: int| 0 <= j < rs.len() && rs[j].priority == 100 implies #[trigger] rs[
            j
        ].pattern != name by {
            let p = rs[j].pattern;
            assert(p == name ==> p.len() == 8 && p[0] == name[0] && p[1] == name[1] && p[2] == name[2] && p[3] == name[3] && p[4] == name[4] && p[5] == name[5] && p[6] == name[6] && p[7] == name[7]);
        }
        assert forall|j: int| 0 <= j < 24 && rs[j].priority == 50 implies !glob_spec(
            #[trigger] rs[j].pattern,
            name,
        ) by {
            let p = rs[j].pattern;
            if p[0] == '*' {
                assert(p == "*Dispatcher"@);
            } else if p[0] != name[0] && p[0] != '?' {
                lemma_literal_mismatch(p, name, 0);
            }
        }
        law_fixed_length_pattern(rs[24].pattern, name);
        assert(rs[24].pattern.len() == name.len());
        lemma_wildcard_entry_wins(name, 24);
    }
    assert(classify_spec(rs, "3.ui"@) == CoreTarget::BigAndPrime) by {
        let name = "3.ui"@;
        assert(name.len() == 4);
        assert forall|j: int| 0 <= j < rs.len() && rs[j].priority == 100 implies #[trigger] rs[
            j
        ].pattern != name by {
            let p = rs[j].pattern;
            assert(p == name ==> p.len() == 4 && p[0] == name[0] && p[1] == name[1] && p[2] == name[2] && p[3] == name[3]);
        }
        assert forall|j: int| 0 <= j < 25 && rs[j].priority == 50 implies !glob_spec(
            #[trigger] rs[j].pattern,
            name,
        ) by {
            let p = rs[j].pattern;
            if p[0] == '*' {
                assert(p == "*Dispatcher"@);
            } else if p[0] != name[0] && p[0] != '?' {
                lemma_literal_mismatch(p, name, 0);
            } else if p[1] != name[1] && p[1] != '?' {
                lemma_literal_mismatch(p, name, 1);
            } else if p[2] != name[2] && p[2] != '?' {
                lemma_literal_mismatch(p, name, 2);
            }
        }
        law_fixed_length_pattern(rs[25].pattern, name);
        assert(rs[25].pattern.len() == name.len());
        lemma_wildcard_entry_wins(name, 25);
    }
    assert(classify_spec(rs, "VizCompositor"@) == CoreTarget::Big) by {
        let name = "VizCompositor"@;
        assert(name.len() == 13);
        assert forall|j: int| 0 <= j < rs.len() && rs[j].priority == 100 implies #[trigger] rs[
            j
        ].pattern != name by {
            let p = rs[j].pattern;
            assert(p == name ==> p.len() == 13 && p[0] == name[0] && p[1] == name[1] && p[2] == name[2] && p[3] == name[3] && p[4] == name[4] && p[5] == name[5] && p[6] == name[6] && p[7] == name[7] && p[8] == name[8] && p[9] == name[9] && p[10] == name[10] && p[11] == name[11] && p[12] == name[12]);
        }
        law_star_literal_suffix("Dispatcher"@, name);
        assert(name.subrange(13 - 10, 13)[0] == name[3]);
        assert forall|j: int| 0 <= j < 57 && rs[j].priority == 50 implies !glob_spec(
            #[trigger] rs[j].pattern,
            name,
        ) by {
            let p = rs[j].pattern;
            if p[0] == '*' {
                assert(p == "*Dispatcher"@);
            } else if p[0] != name[0] && p[0] != '?' {
                lemma_literal_mismatch(p, name, 0);
            } else if p[1] != name[1] && p[1] != '?' {
                lemma_literal_mismatch(p, name, 1);
            }
        }
        law_fixed_length_pattern(rs[57].pattern, name);
        assert(rs[57].pattern.len() == name.len());
        lemma_wildcard_entry_wins(name, 57);
    }
    assert(classify_spec(rs, "1.io"@) == CoreTarget::Big) by {
        let name = "1.io"@;
        assert(name.len() == 4);
        assert forall|j: int| 0 <= j < rs.len() && rs[j].priority == 100 implies #[trigger] rs[
            j
        ].pattern != name by {
            let p = rs[j].pattern;
            assert(p == name ==> p.len() == 4 && p[0] == name[0] && p[1] == name[1] && p[2] == name[2] && p[3] == name[3]);
        }
        law_star_literal_suffix("Dispatcher"@, name);
        assert(name.len() < 10);
        assert forall|j: int| 0 <= j < 68 && rs[j].priority == 50 implies !glob_spec(
            #[trigger] rs[j].pattern,
            name,
        ) by {
            let p = rs[j].pattern;
            if p[0] == '*' {
                assert(p == "*Dispatcher"@);
            } else if p[0] != name[0] && p[0] != '?' {
                lemma_literal_mismatch(p, name, 0);
            } else if p[1] != name[1] && p[1] != '?' {
                lemma_literal_mismatch(p, name, 1);
            } else if p[2] != name[2] && p[2] != '?' {
                lemma_literal_mismatch(p, name, 2);
            }
        }
        law_fixed_length_pattern(rs[68].pattern, name);
        assert(rs[68].pattern.len() == name.len());
        lemma_wildcard_entry_wins(name, 68);
    }
}

/// A thread whose name holds `pool` or `Pool` and that nothing more specific
/// claims goes to the big and prime cores (the broad entry `*[Pp]ool*`), as
/// this name shows:
/// `mypool` (`*[Pp]ool*`).
#[verifier::spinoff_prover]
#[verifier::rlimit(100)]
pub proof fn law_pool_word_thread_name()
    ensures
        classify_spec(builtin_rules(), "mypool"@) == CoreTarget::BigAndPrime,
{
    let rs = builtin_rules();
    reveal_strlit("#pool-[0-9]*-thread*");
    reveal_strlit("*ColdPool*");
    reveal_strlit("*Dispatcher");
    reveal_strlit("*Event*");
    reveal_strlit("*HotPool*");
    reveal_strlit("*Loading*");
    reveal_strlit("*TaskQueue*");
    reveal_strlit("*ThreadPool*");
    reveal_strlit("*Worker*");
    reveal_strlit("*[Aa]nim*");
    reveal_strlit("*[Aa]udio*");
    reveal_strlit("*[Bb]ackStage*");
    reveal_strlit("*[Bb]inder*");
    reveal_strlit("*[Hh]ttp*");
    reveal_strlit("*[Pp]ool*");
    reveal_strlit("*worker*");
    reveal_strlit("1.raster");
    reveal_strlit("1.ui");
    reveal_strlit("2.ui");
    reveal_strlit("?.io");
    reveal_strlit("?.raster");
    reveal_strlit("?.ui");
    reveal_strlit("AILocalThread");
    reveal_strlit("AOutle*");
    reveal_strlit("APM_light-weigh");
    reveal_strlit("AndroidRender");
    reveal_strlit("AndroidUI");
    reveal_strlit("AnimationThread");
    reveal_strlit("Apollo-*");
    reveal_strlit("AsyncTask*");
    reveal_strlit("AudioThread");
    reveal_strlit("AudioTrack");
    reveal_strlit("Binder:*");
    reveal_strlit("CRI*");
    reveal_strlit("CallbackHndlr");
    reveal_strlit("Chrome_ChildIOT");
    reveal_strlit("Chrome_IOThread");
    reveal_strlit("Chrome_InProcGp");
    reveal_strlit("Chrome_InProcRe");
    reveal_strlit("ChromiumNet*");
    reveal_strlit("CodecLooper*");
    reveal_strlit("Compositor");
    reveal_strlit("Compute*");
    reveal_strlit("CoreThread");
    reveal_strlit("CrRendererMain");
    reveal_strlit("CriManaDecode*");
    reveal_strlit("DartWorker*");
    reveal_strlit("DefaultDispatch");
    reveal_strlit("DefaultExecutor");
    reveal_strlit("DispatchQueuePo");
    reveal_strlit("DownloadThreadP*");
    reveal_strlit("ExoPlayer:*");
    reveal_strlit("FAsyncLoading*");
    reveal_strlit("FMOD*");
    reveal_strlit("GC?Marker??");
    reveal_strlit("GLThread*");
    reveal_strlit("GPM-DataThread");
    reveal_strlit("GameThread");
    reveal_strlit("Game[0-9]*");
    reveal_strlit("GcamViewfinder");
    reveal_strlit("Gecko");
    reveal_strlit("HadesLibPool*");
    reveal_strlit("HadesPool*");
    reveal_strlit("HeapTaskDaemon");
    reveal_strlit("HwBinder:*");
    reveal_strlit("IL2CPP*");
    reveal_strlit("IO*Thread*");
    reveal_strlit("IO-*");
    reveal_strlit("IOThread*");
    reveal_strlit("IPC*");
    reveal_strlit("IPDL*");
    reveal_strlit("InputDispatcher");
    reveal_strlit("InsetsAnimation");
    reveal_strlit("JNISurfaceTextu");
    reveal_strlit("JavaBridge");
    reveal_strlit("Jit thread pool");
    reveal_strlit("Job.[Ww]orker*");
    reveal_strlit("JobThread*");
    reveal_strlit("Loading.*");
    reveal_strlit("LogAppendWork");
    reveal_strlit("LogicThread");
    reveal_strlit("Lynx_JS");
    reveal_strlit("MainThread");
    reveal_strlit("MainThread*");
    reveal_strlit("Mainloop");
    reveal_strlit("MediaCodec*");
    reveal_strlit("MiniRainbowMain");
    reveal_strlit("MiniRenderThrea");
    reveal_strlit("NativeThread*");
    reveal_strlit("NetworkService");
    reveal_strlit("OkHttp*");
    reveal_strlit("PakMergeThread");
    reveal_strlit("Phenix-Schedule");
    reveal_strlit("PoolThread*");
    reveal_strlit("RHIThread");
    reveal_strlit("RHIThread*");
    reveal_strlit("RenderEngine");
    reveal_strlit("RenderThread");
    reveal_strlit("RenderThread*");
    reveal_strlit("RenderingThread");
    reveal_strlit("RxCachedThreadS");
    reveal_strlit("ShaderCompiling");
    reveal_strlit("Shared_w*");
    reveal_strlit("Socket Thread");
    reveal_strlit("SoundDecoder*");
    reveal_strlit("SoundPool*");
    reveal_strlit("Task*");
    reveal_strlit("TaskGraph*");
    reveal_strlit("Thread-*");
    reveal_strlit("ThreadPool*");
    reveal_strlit("ThreadPoolForeg*");
    reveal_strlit("ThreadPoolServi*");
    reveal_strlit("ThumbnailStorag");
    reveal_strlit("UEGameThread");
    reveal_strlit("UnityChoreo*");
    reveal_strlit("UnityChoreograp*");
    reveal_strlit("UnityGfx*");
    reveal_strlit("UnityGfxDeviceW");
    reveal_strlit("UnityMain");
    reveal_strlit("UnityMultiRende*");
    reveal_strlit("UnityPreload");
    reveal_strlit("UnityPreload*");
    reveal_strlit("VCMainThread");
    reveal_strlit("VDecod*");
    reveal_strlit("VOutle*");
    reveal_strlit("VizCompositor");
    reveal_strlit("VizWebView");
    reveal_strlit("VulkanRenderMan");
    reveal_strlit("Web Content");
    reveal_strlit("Worker Thread");
    reveal_strlit("[Bb][Gg]*");
    reveal_strlit("[Bb]inder:*");
    reveal_strlit("alsoft-mixer");
    reveal_strlit("arch_disk*");
    reveal_strlit("arch_disk_*");
    reveal_strlit("beacon-thread-*");
    reveal_strlit("binder:*");
    reveal_strlit("cached-pool-*");
    reveal_strlit("decodeQueue*");
    reveal_strlit("fileUploadQueue");
    reveal_strlit("files_database*");
    reveal_strlit("glide*");
    reveal_strlit("glide-*");
    reveal_strlit("hwui*");
    reveal_strlit("hwuiTask*");
    reveal_strlit("ijk_dash_pool_*");
    reveal_strlit("io.worker*");
    reveal_strlit("ledThreadPool-*");
    reveal_strlit("looper_monitor");
    reveal_strlit("main");
    reveal_strlit("mali-*");
    reveal_strlit("mpv/*");
    reveal_strlit("mqt_*");
    reveal_strlit("mypool");
    reveal_strlit("onPool-worker-*");
    reveal_strlit("pivotal-pool-*");
    reveal_strlit("pool-[0-9]*-thread*");
    reveal_strlit("rx-pool-*");
    reveal_strlit("searchQueue");
    reveal_strlit("stageQueue*");
    reveal_strlit("storageQueue*");
    reveal_strlit("vrpool-*");
    reveal_with_fuel(matches_from, 12);
    reveal_with_fuel(class_items_end, 4);
    reveal_with_fuel(class_items_hit, 4);
    assert(classify_spec(rs, "mypool"@) == CoreTarget::BigAndPrime) by {
        let name = "mypool"@;
        assert(name.len() == 6);
        assert forall|j: int| 0 <= j < rs.len() && rs[j].priority == 100 implies #[trigger] rs[
            j
        ].pattern != name by {
            let p = rs[j].pattern;
            assert(p == name ==> p.len() == 6 && p[0] == name[0] && p[1] == name[1] && p[2] == name[2] && p[3] == name[3] && p[4] == name[4] && p[5] == name[5]);
        }
        assert forall|j: int| 0 <= j < rs.len() && rs[j].priority == 50 implies !glob_spec(
            #[trigger] rs[j].pattern,
            name,
        ) by {}
        assert forall|j: int| 0 <= j < 28 && rs[j].priority == 20 implies !glob_spec(
            #[trigger] rs[j].pattern,
            name,
        ) by {}
        assert(glob_spec(rs[28].pattern, name));
        lemma_broad_entry_wins(name, 28);
    }
}

/// A thread whose name holds `anim` or `Anim` and that nothing more specific
/// claims goes to the big and prime cores (the broad entry `*[Aa]nim*`), as
/// this name shows:
/// `Anim` (`*[Aa]nim*`).
#[verifier::spinoff_prover]
#[verifier::rlimit(100)]
pub proof fn law_anim_word_thread_name()
    ensures
        classify_spec(builtin_rules(), "Anim"@) == CoreTarget::BigAndPrime,
{
    let rs = builtin_rules();
    reveal_strlit("#pool-[0-9]*-thread*");
    reveal_strlit("*ColdPool*");
    reveal_strlit("*Dispatcher");
    reveal_strlit("*Event*");
    reveal_strlit("*HotPool*");
    reveal_strlit("*Loading*");
    reveal_strlit("*TaskQueue*");
    reveal_strlit("*ThreadPool*");
    reveal_strlit("*Worker*");
    reveal_strlit("*[Aa]nim*");
    reveal_strlit("*[Aa]udio*");
    reveal_strlit("*[Bb]ackStage*");
    reveal_strlit("*[Bb]inder*");
    reveal_strlit("*[Hh]ttp*");
    reveal_strlit("*[Pp]ool*");
    reveal_strlit("*worker*");
    reveal_strlit("1.raster");
    reveal_strlit("1.ui");
    reveal_strlit("2.ui");
    reveal_strlit("?.io");
    reveal_strlit("?.raster");
    reveal_strlit("?.ui");
    reveal_strlit("AILocalThread");
    reveal_strlit("AOutle*");
    reveal_strlit("APM_light-weigh");
    reveal_strlit("AndroidRender");
    reveal_strlit("AndroidUI");
    reveal_strlit("Anim");
    reveal_strlit("AnimationThread");
    reveal_strlit("Apollo-*");
    reveal_strlit("AsyncTask*");
    reveal_strlit("AudioThread");
    reveal_strlit("AudioTrack");
    reveal_strlit("Binder:*");
    reveal_strlit("CRI*");
    reveal_strlit("CallbackHndlr");
    reveal_strlit("Chrome_ChildIOT");
    reveal_strlit("Chrome_IOThread");
    reveal_strlit("Chrome_InProcGp");
    reveal_strlit("Chrome_InProcRe");
    reveal_strlit("ChromiumNet*");
    reveal_strlit("CodecLooper*");
    reveal_strlit("Compositor");
    reveal_strlit("Compute*");
    reveal_strlit("CoreThread");
    reveal_strlit("CrRendererMain");
    reveal_strlit("CriManaDecode*");
    reveal_strlit("DartWorker*");
    reveal_strlit("DefaultDispatch");
    reveal_strlit("DefaultExecutor");
    reveal_strlit("DispatchQueuePo");
    reveal_strlit("DownloadThreadP*");
    reveal_strlit("ExoPlayer:*");
    reveal_strlit("FAsyncLoading*");
    reveal_strlit("FMOD*");
    reveal_strlit("GC?Marker??");
    reveal_strlit("GLThread*");
    reveal_strlit("GPM-DataThread");
    reveal_strlit("GameThread");
    reveal_strlit("Game[0-9]*");
    reveal_strlit("GcamViewfinder");
    reveal_strlit("Gecko");
    reveal_strlit("HadesLibPool*");
    reveal_strlit("HadesPool*");
    reveal_strlit("HeapTaskDaemon");
    reveal_strlit("HwBinder:*");
    reveal_strlit("IL2CPP*");
    reveal_strlit("IO*Thread*");
    reveal_strlit("IO-*");
    reveal_strlit("IOThread*");
    reveal_strlit("IPC*");
    reveal_strlit("IPDL*");
    reveal_strlit("InputDispatcher");
    reveal_strlit("InsetsAnimation");
    reveal_strlit("JNISurfaceTextu");
    reveal_strlit("JavaBridge");
    reveal_strlit("Jit thread pool");
    reveal_strlit("Job.[Ww]orker*");
    reveal_strlit("JobThread*");
    reveal_strlit("Loading.*");
    reveal_strlit("LogAppendWork");
    reveal_strlit("LogicThread");
    reveal_strlit("Lynx_JS");
    reveal_strlit("MainThread");
    reveal_strlit("MainThread*");
    reveal_strlit("Mainloop");
    reveal_strlit("MediaCodec*");
    reveal_strlit("MiniRainbowMain");
    reveal_strlit("MiniRenderThrea");
    reveal_strlit("NativeThread*");
    reveal_strlit("NetworkService");
    reveal_strlit("OkHttp*");
    reveal_strlit("PakMergeThread");
    reveal_strlit("Phenix-Schedule");
    reveal_strlit("PoolThread*");
    reveal_strlit("RHIThread");
    reveal_strlit("RHIThread*");
    reveal_strlit("RenderEngine");
    reveal_strlit("RenderThread");
    reveal_strlit("RenderThread*");
    reveal_strlit("RenderingThread");
    reveal_strlit("RxCachedThreadS");
    reveal_strlit("ShaderCompiling");
    reveal_strlit("Shared_w*");
    reveal_strlit("Socket Thread");
    reveal_strlit("SoundDecoder*");
    reveal_strlit("SoundPool*");
    reveal_strlit("Task*");
    reveal_strlit("TaskGraph*");
    reveal_strlit("Thread-*");
    reveal_strlit("ThreadPool*");
    reveal_strlit("ThreadPoolForeg*");
    reveal_strlit("ThreadPoolServi*");
    reveal_strlit("ThumbnailStorag");
    reveal_strlit("UEGameThread");
    reveal_strlit("UnityChoreo*");
    reveal_strlit("UnityChoreograp*");
    reveal_strlit("UnityGfx*");
    reveal_strlit("UnityGfxDeviceW");
    reveal_strlit("UnityMain");
    reveal_strlit("UnityMultiRende*");
    reveal_strlit("UnityPreload");
    reveal_strlit("UnityPreload*");
    reveal_strlit("VCMainThread");
    reveal_strlit("VDecod*");
    reveal_strlit("VOutle*");
    reveal_strlit("VizCompositor");
    reveal_strlit("VizWebView");
    reveal_strlit("VulkanRenderMan");
    reveal_strlit("Web Content");
    reveal_strlit("Worker Thread");
    reveal_strlit("[Bb][Gg]*");
    reveal_strlit("[Bb]inder:*");
    reveal_strlit("alsoft-mixer");
    reveal_strlit("arch_disk*");
    reveal_strlit("arch_disk_*");
    reveal_strlit("beacon-thread-*");
    reveal_strlit("binder:*");
    reveal_strlit("cached-pool-*");
    reveal_strlit("decodeQueue*");
    reveal_strlit("fileUploadQueue");
    reveal_strlit("files_database*");
    reveal_strlit("glide*");
    reveal_strlit("glide-*");
    reveal_strlit("hwui*");
    reveal_strlit("hwuiTask*");
    reveal_strlit("ijk_dash_pool_*");
    reveal_strlit("io.worker*");
    reveal_strlit("ledThreadPool-*");
    reveal_strlit("looper_monitor");
    reveal_strlit("main");
    reveal_strlit("mali-*");
    reveal_strlit("mpv/*");
    reveal_strlit("mqt_*");
    reveal_strlit("onPool-worker-*");
    reveal_strlit("pivotal-pool-*");
    reveal_strlit("pool-[0-9]*-thread*");
    reveal_strlit("rx-pool-*");
    reveal_strlit("searchQueue");
    reveal_strlit("stageQueue*");
    reveal_strlit("storageQueue*");
    reveal_strlit("vrpool-*");
    reveal_with_fuel(matches_from, 10);
    reveal_with_fuel(class_items_end, 4);
    reveal_with_fuel(class_items_hit, 4);
    assert(classify_spec(rs, "Anim"@) == CoreTarget::BigAndPrime) by {
        let name = "Anim"@;
        assert(name.len() == 4);
        assert forall|j: int| 0 <= j < rs.len() && rs[j].priority == 100 implies #[trigger] rs[
            j
        ].pattern != name by {
            let p = rs[j].pattern;
            assert(p == name ==> p.len() == 4 && p[0] == name[0] && p[1] == name[1] && p[2] == name[2] && p[3] == name[3]);
        }
        assert forall|j: int| 0 <= j < rs.len() && rs[j].priority == 50 implies !glob_spec(
            #[trigger] rs[j].pattern,
            name,
        ) by {}
        assert forall|j: int| 0 <= j < 27 && rs[j].priority == 20 implies !glob_spec(
            #[trigger] rs[j].pattern,
            name,
        ) by {}
        assert(glob_spec(rs[27].pattern, name));
        lemma_broad_entry_wins(name, 27);
    }
}

/// A thread whose name ends in `Dispatcher` and that no exact name claims
/// goes to the big and prime cores (the entry `*Dispatcher`), as this name
/// shows:
/// `NetDispatcher` (`*Dispatcher`).
#[verifier::spinoff_prover]
#[verifier::rlimit(100)]
pub proof fn law_dispatcher_thread_name()
    ensures
        classify_spec(builtin_rules(), "NetDispatcher"@) == CoreTarget::BigAndPrime,
{
    let rs = builtin_rules();
    reveal_strlit("*Dispatcher");
    reveal_strlit("*[Aa]nim*");
    reveal_strlit("*[Pp]ool*");
    reveal_strlit("1.raster");
    reveal_strlit("1.ui");
    reveal_strlit("2.ui");
    reveal_strlit("?.raster");
    reveal_strlit("?.ui");
    reveal_strlit("AILocalThread");
    reveal_strlit("APM_light-weigh");
    reveal_strlit("AndroidRender");
    reveal_strlit("AndroidUI");
    reveal_strlit("AnimationThread");
    reveal_strlit("AsyncTask*");
    reveal_strlit("AudioThread");
    reveal_strlit("AudioTrack");
    reveal_strlit("CallbackHndlr");
    reveal_strlit("Chrome_ChildIOT");
    reveal_strlit("Chrome_IOThread");
    reveal_strlit("Chrome_InProcGp");
    reveal_strlit("Chrome_InProcRe");
    reveal_strlit("Compositor");
    reveal_strlit("CoreThread");
    reveal_strlit("CrRendererMain");
    reveal_strlit("DefaultDispatch");
    reveal_strlit("DefaultExecutor");
    reveal_strlit("DispatchQueuePo");
    reveal_strlit("GLThread*");
    reveal_strlit("GPM-DataThread");
    reveal_strlit("GameThread");
    reveal_strlit("Game[0-9]*");
    reveal_strlit("GcamViewfinder");
    reveal_strlit("Gecko");
    reveal_strlit("HeapTaskDaemon");
    reveal_strlit("IL2CPP*");
    reveal_strlit("InputDispatcher");
    reveal_strlit("InsetsAnimation");
    reveal_strlit("JNISurfaceTextu");
    reveal_strlit("JavaBridge");
    reveal_strlit("Jit thread pool");
    reveal_strlit("LogAppendWork");
    reveal_strlit("LogicThread");
    reveal_strlit("Lynx_JS");
    reveal_strlit("MainThread");
    reveal_strlit("Mainloop");
    reveal_strlit("MiniRainbowMain");
    reveal_strlit("MiniRenderThrea");
    reveal_strlit("NetDispatcher");
    reveal_strlit("NetworkService");
    reveal_strlit("PakMergeThread");
    reveal_strlit("Phenix-Schedule");
    reveal_strlit("RHIThread");
    reveal_strlit("RenderEngine");
    reveal_strlit("RenderThread");
    reveal_strlit("RenderingThread");
    reveal_strlit("RxCachedThreadS");
    reveal_strlit("ShaderCompiling");
    reveal_strlit("Socket Thread");
    reveal_strlit("ThumbnailStorag");
    reveal_strlit("UEGameThread");
    reveal_strlit("UnityGfxDeviceW");
    reveal_strlit("UnityMain");
    reveal_strlit("UnityPreload");
    reveal_strlit("VCMainThread");
    reveal_strlit("VizWebView");
    reveal_strlit("VulkanRenderMan");
    reveal_strlit("Web Content");
    reveal_strlit("Worker Thread");
    reveal_strlit("alsoft-mixer");
    reveal_strlit("arch_disk*");
    reveal_strlit("arch_disk_*");
    reveal_strlit("fileUploadQueue");
    reveal_strlit("glide*");
    reveal_strlit("glide-*");
    reveal_strlit("looper_monitor");
    reveal_strlit("main");
    reveal_strlit("mqt_*");
    reveal_strlit("searchQueue");
    reveal_with_fuel(matches_from, 19);
    reveal_with_fuel(class_items_end, 4);
    reveal_with_fuel(class_items_hit, 4);
    assert(classify_spec(rs, "NetDispatcher"@) == CoreTarget::BigAndPrime) by {
        let name = "NetDispatcher"@;
        assert(name.len() == 13);
        assert forall|j: int| 0 <= j < rs.len() && rs[j].priority == 100 implies #[trigger] rs[
            j
        ].pattern != name by {
            let p = rs[j].pattern;
            assert(p == name ==> p.len() == 13 && p[0] == name[0] && p[1] == name[1] && p[2] == name[2] && p[3] == name[3] && p[4] == name[4] && p[5] == name[5] && p[6] == name[6] && p[7] == name[7] && p[8] == name[8] && p[9] == name[9] && p[10] == name[10] && p[11] == name[11] && p[12] == name[12]);
        }
        assert forall|j: int| 0 <= j < 38 && rs[j].priority == 50 implies !glob_spec(
            #[trigger] rs[j].pattern,
            name,
        ) by {}
        assert(glob_spec(rs[38].pattern, name));
        lemma_wildcard_entry_wins(name, 38);
    }
}

/// A thread whose name holds `ThreadPool` and that nothing earlier claims
/// goes to the little and big cores (the entry `*ThreadPool*`), as this name
/// shows:
/// `MyThreadPool` (`*ThreadPool*`).
#[verifier::spinoff_prover]
#[verifier::rlimit(100)]
pub proof fn law_thread_pool_word_thread_name()
    ensures
        classify_spec(builtin_rules(), "MyThreadPool"@) == CoreTarget::LittleAndBig,
{
    let rs = builtin_rules();
    reveal_strlit("#pool-[0-9]*-thread*");
    reveal_strlit("*ColdPool*");
    reveal_strlit("*Dispatcher");
    reveal_strlit("*Event*");
    reveal_strlit("*HotPool*");
    reveal_strlit("*TaskQueue*");
    reveal_strlit("*ThreadPool*");
    reveal_strlit("*Worker*");
    reveal_strlit("*[Aa]nim*");
    reveal_strlit("*[Bb]ackStage*");
    reveal_strlit("*[Bb]inder*");
    reveal_strlit("*[Hh]ttp*");
    reveal_strlit("*[Pp]ool*");
    reveal_strlit("*worker*");
    reveal_strlit("1.raster");
    reveal_strlit("1.ui");
    reveal_strlit("2.ui");
    reveal_strlit("?.io");
    reveal_strlit("?.raster");
    reveal_strlit("?.ui");
    reveal_strlit("AILocalThread");
    reveal_strlit("AOutle*");
    reveal_strlit("APM_light-weigh");
    reveal_strlit("AndroidRender");
    reveal_strlit("AndroidUI");
    reveal_strlit("AnimationThread");
    reveal_strlit("AsyncTask*");
    reveal_strlit("AudioThread");
    reveal_strlit("AudioTrack");
    reveal_strlit("Binder:*");
    reveal_strlit("CRI*");
    reveal_strlit("CallbackHndlr");
    reveal_strlit("Chrome_ChildIOT");
    reveal_strlit("Chrome_IOThread");
    reveal_strlit("Chrome_InProcGp");
    reveal_strlit("Chrome_InProcRe");
    reveal_strlit("ChromiumNet*");
    reveal_strlit("CodecLooper*");
    reveal_strlit("Compositor");
    reveal_strlit("Compute*");
    reveal_strlit("CoreThread");
    reveal_strlit("CrRendererMain");
    reveal_strlit("DartWorker*");
    reveal_strlit("DefaultDispatch");
    reveal_strlit("DefaultExecutor");
    reveal_strlit("DispatchQueuePo");
    reveal_strlit("ExoPlayer:*");
    reveal_strlit("GLThread*");
    reveal_strlit("GPM-DataThread");
    reveal_strlit("GameThread");
    reveal_strlit("Game[0-9]*");
    reveal_strlit("GcamViewfinder");
    reveal_strlit("Gecko");
    reveal_strlit("HadesLibPool*");
    reveal_strlit("HadesPool*");
    reveal_strlit("HeapTaskDaemon");
    reveal_strlit("HwBinder:*");
    reveal_strlit("IL2CPP*");
    reveal_strlit("IOThread*");
    reveal_strlit("IPC*");
    reveal_strlit("IPDL*");
    reveal_strlit("InputDispatcher");
    reveal_strlit("InsetsAnimation");
    reveal_strlit("JNISurfaceTextu");
    reveal_strlit("JavaBridge");
    reveal_strlit("Jit thread pool");
    reveal_strlit("Job.[Ww]orker*");
    reveal_strlit("JobThread*");
    reveal_strlit("LogAppendWork");
    reveal_strlit("LogicThread");
    reveal_strlit("Lynx_JS");
    reveal_strlit("MainThread");
    reveal_strlit("MainThread*");
    reveal_strlit("Mainloop");
    reveal_strlit("MediaCodec*");
    reveal_strlit("MiniRainbowMain");
    reveal_strlit("MiniRenderThrea");
    reveal_strlit("MyThreadPool");
    reveal_strlit("NativeThread*");
    reveal_strlit("NetworkService");
    reveal_strlit("OkHttp*");
    reveal_strlit("PakMergeThread");
    reveal_strlit("Phenix-Schedule");
    reveal_strlit("PoolThread*");
    reveal_strlit("RHIThread");
    reveal_strlit("RHIThread*");
    reveal_strlit("RenderEngine");
    reveal_strlit("RenderThread");
    reveal_strlit("RenderThread*");
    reveal_strlit("RenderingThread");
    reveal_strlit("RxCachedThreadS");
    reveal_strlit("ShaderCompiling");
    reveal_strlit("Shared_w*");
    reveal_strlit("Socket Thread");
    reveal_strlit("Task*");
    reveal_strlit("TaskGraph*");
    reveal_strlit("Thread-*");
    reveal_strlit("ThreadPool*");
    reveal_strlit("ThreadPoolForeg*");
    reveal_strlit("ThreadPoolServi*");
    reveal_strlit("ThumbnailStorag");
    reveal_strlit("UEGameThread");
    reveal_strlit("UnityGfx*");
    reveal_strlit("UnityGfxDeviceW");
    reveal_strlit("UnityMain");
    reveal_strlit("UnityMultiRende*");
    reveal_strlit("UnityPreload");
    reveal_strlit("UnityPreload*");
    reveal_strlit("VCMainThread");
    reveal_strlit("VDecod*");
    reveal_strlit("VOutle*");
    reveal_strlit("VizCompositor");
    reveal_strlit("VizWebView");
    reveal_strlit("VulkanRenderMan");
    reveal_strlit("Web Content");
    reveal_strlit("Worker Thread");
    reveal_strlit("[Bb]inder:*");
    reveal_strlit("alsoft-mixer");
    reveal_strlit("arch_disk*");
    reveal_strlit("arch_disk_*");
    reveal_strlit("beacon-thread-*");
    reveal_strlit("binder:*");
    reveal_strlit("cached-pool-*");
    reveal_strlit("fileUploadQueue");
    reveal_strlit("files_database*");
    reveal_strlit("glide*");
    reveal_strlit("glide-*");
    reveal_strlit("hwui*");
    reveal_strlit("hwuiTask*");
    reveal_strlit("io.worker*");
    reveal_strlit("ledThreadPool-*");
    reveal_strlit("looper_monitor");
    reveal_strlit("main");
    reveal_strlit("mali-*");
    reveal_strlit("mpv/*");
    reveal_strlit("mqt_*");
    reveal_strlit("onPool-worker-*");
    reveal_strlit("pivotal-pool-*");
    reveal_strlit("pool-[0-9]*-thread*");
    reveal_strlit("rx-pool-*");
    reveal_strlit("searchQueue");
    reveal_strlit("stageQueue*");
    reveal_strlit("storageQueue*");
    reveal_strlit("vrpool-*");
    reveal_with_fuel(matches_from, 18);
    reveal_with_fuel(class_items_end, 4);
    reveal_with_fuel(class_items_hit, 4);
    assert(classify_spec(rs, "MyThreadPool"@) == CoreTarget::LittleAndBig) by {
        let name = "MyThreadPool"@;
        assert(name.len() == 12);
        assert forall|j: int| 0 <= j < rs.len() && rs[j].priority == 100 implies #[trigger] rs[
            j
        ].pattern != name by {
            let p = rs[j].pattern;
            assert(p == name ==> p.len() == 12 && p[0] == name[0] && p[1] == name[1] && p[2] == name[2] && p[3] == name[3] && p[4] == name[4] && p[5] == name[5] && p[6] == name[6] && p[7] == name[7] && p[8] == name[8] && p[9] == name[9] && p[10] == name[10] && p[11] == name[11]);
        }
        assert forall|j: int| 0 <= j < 137 && rs[j].priority == 50 implies !glob_spec(
            #[trigger] rs[j].pattern,
            name,
        ) by {}
        assert(glob_spec(rs[137].pattern, name));
        lemma_wildcard_entry_wins(name, 137);
    }
}

/// A thread of a numbered Java executor pool goes to the little and big
/// cores (the entry `pool-[0-9]*-thread*`), as this name shows:
/// `pool-1-thread-1` (`pool-[0-9]*-thread*`).
#[verifier::spinoff_prover]
#[verifier::rlimit(100)]
pub proof fn law_numbered_pool_thread_name()
    ensures
        classify_spec(builtin_rules(), "pool-1-thread-1"@) == CoreTarget::LittleAndBig,
{
    let rs = builtin_rules();
    reveal_strlit("*Dispatcher");
    reveal_strlit("*Event*");
    reveal_strlit("*TaskQueue*");
    reveal_strlit("*Worker*");
    reveal_strlit("*[Aa]nim*");
    reveal_strlit("*[Bb]ackStage*");
    reveal_strlit("*[Bb]inder*");
    reveal_strlit("*[Hh]ttp*");
    reveal_strlit("*[Pp]ool*");
    reveal_strlit("*worker*");
    reveal_strlit("1.raster");
    reveal_strlit("1.ui");
    reveal_strlit("2.ui");
    reveal_strlit("?.io");
    reveal_strlit("?.raster");
    reveal_strlit("?.ui");
    reveal_strlit("AILocalThread");
    reveal_strlit("AOutle*");
    reveal_strlit("APM_light-weigh");
    reveal_strlit("AndroidRender");
    reveal_strlit("AndroidUI");
    reveal_strlit("AnimationThread");
    reveal_strlit("AsyncTask*");
    reveal_strlit("AudioThread");
    reveal_strlit("AudioTrack");
    reveal_strlit("Binder:*");
    reveal_strlit("CRI*");
    reveal_strlit("CallbackHndlr");
    reveal_strlit("Chrome_ChildIOT");
    reveal_strlit("Chrome_IOThread");
    reveal_strlit("Chrome_InProcGp");
    reveal_strlit("Chrome_InProcRe");
    reveal_strlit("ChromiumNet*");
    reveal_strlit("CodecLooper*");
    reveal_strlit("Compositor");
    reveal_strlit("Compute*");
    reveal_strlit("CoreThread");
    reveal_strlit("CrRendererMain");
    reveal_strlit("DartWorker*");
    reveal_strlit("DefaultDispatch");
    reveal_strlit("DefaultExecutor");
    reveal_strlit("DispatchQueuePo");
    reveal_strlit("ExoPlayer:*");
    reveal_strlit("GLThread*");
    reveal_strlit("GPM-DataThread");
    reveal_strlit("GameThread");
    reveal_strlit("Game[0-9]*");
    reveal_strlit("GcamViewfinder");
    reveal_strlit("Gecko");
    reveal_strlit("HeapTaskDaemon");
    reveal_strlit("HwBinder:*");
    reveal_strlit("IL2CPP*");
    reveal_strlit("IOThread*");
    reveal_strlit("IPC*");
    reveal_strlit("IPDL*");
    reveal_strlit("InputDispatcher");
    reveal_strlit("InsetsAnimation");
    reveal_strlit("JNISurfaceTextu");
    reveal_strlit("JavaBridge");
    reveal_strlit("Jit thread pool");
    reveal_strlit("Job.[Ww]orker*");
    reveal_strlit("JobThread*");
    reveal_strlit("LogAppendWork");
    reveal_strlit("LogicThread");
    reveal_strlit("Lynx_JS");
    reveal_strlit("MainThread");
    reveal_strlit("MainThread*");
    reveal_strlit("Mainloop");
    reveal_strlit("MediaCodec*");
    reveal_strlit("MiniRainbowMain");
    reveal_strlit("MiniRenderThrea");
    reveal_strlit("NativeThread*");
    reveal_strlit("NetworkService");
    reveal_strlit("OkHttp*");
    reveal_strlit("PakMergeThread");
    reveal_strlit("Phenix-Schedule");
    reveal_strlit("PoolThread*");
    reveal_strlit("RHIThread");
    reveal_strlit("RHIThread*");
    reveal_strlit("RenderEngine");
    reveal_strlit("RenderThread");
    reveal_strlit("RenderThread*");
    reveal_strlit("RenderingThread");
    reveal_strlit("RxCachedThreadS");
    reveal_strlit("ShaderCompiling");
    reveal_strlit("Shared_w*");
    reveal_strlit("Socket Thread");
    reveal_strlit("Task*");
    reveal_strlit("TaskGraph*");
    reveal_strlit("Thread-*");
    reveal_strlit("ThreadPool*");
    reveal_strlit("ThreadPoolForeg*");
    reveal_strlit("ThreadPoolServi*");
    reveal_strlit("ThumbnailStorag");
    reveal_strlit("UEGameThread");
    reveal_strlit("UnityGfx*");
    reveal_strlit("UnityGfxDeviceW");
    reveal_strlit("UnityMain");
    reveal_strlit("UnityMultiRende*");
    reveal_strlit("UnityPreload");
    reveal_strlit("UnityPreload*");
    reveal_strlit("VCMainThread");
    reveal_strlit("VDecod*");
    reveal_strlit("VOutle*");
    reveal_strlit("VizCompositor");
    reveal_strlit("VizWebView");
    reveal_strlit("VulkanRenderMan");
    reveal_strlit("Web Content");
    reveal_strlit("Worker Thread");
    reveal_strlit("[Bb]inder:*");
    reveal_strlit("alsoft-mixer");
    reveal_strlit("arch_disk*");
    reveal_strlit("arch_disk_*");
    reveal_strlit("beacon-thread-*");
    reveal_strlit("binder:*");
    reveal_strlit("fileUploadQueue");
    reveal_strlit("files_database*");
    reveal_strlit("glide*");
    reveal_strlit("glide-*");
    reveal_strlit("hwui*");
    reveal_strlit("hwuiTask*");
    reveal_strlit("io.worker*");
    reveal_strlit("looper_monitor");
    reveal_strlit("main");
    reveal_strlit("mali-*");
    reveal_strlit("mpv/*");
    reveal_strlit("mqt_*");
    reveal_strlit("pool-1-thread-1");
    reveal_strlit("pool-[0-9]*-thread*");
    reveal_strlit("searchQueue");
    reveal_strlit("stageQueue*");
    reveal_strlit("storageQueue*");
    reveal_with_fuel(matches_from, 21);
    reveal_with_fuel(class_items_end, 4);
    reveal_with_fuel(class_items_hit, 4);
    assert(classify_spec(rs, "pool-1-thread-1"@) == CoreTarget::LittleAndBig) by {
        let name = "pool-1-thread-1"@;
        assert(name.len() == 15);
        assert forall|j: int| 0 <= j < rs.len() && rs[j].priority == 100 implies #[trigger] rs[
            j
        ].pattern != name by {
            let p = rs[j].pattern;
            assert(p == name ==> p.len() == 15 && p[0] == name[0] && p[1] == name[1] && p[2] == name[2] && p[3] == name[3] && p[4] == name[4] && p[5] == name[5] && p[6] == name[6] && p[7] == name[7] && p[8] == name[8] && p[9] == name[9] && p[10] == name[10] && p[11] == name[11] && p[12] == name[12] && p[13] == name[13] && p[14] == name[14]);
        }
        assert forall|j: int| 0 <= j < 125 && rs[j].priority == 50 implies !glob_spec(
            #[trigger] rs[j].pattern,
            name,
        ) by {}
        assert(glob_spec(rs[125].pattern, name));
        lemma_wildcard_entry_wins(name, 125);
    }
}

/// A thread named `Game` and a digit goes to the big and prime cores (the
/// entry `Game[0-9]*`), as this name shows:
/// `Game1` (`Game[0-9]*`).
#[verifier::spinoff_prover]
#[verifier::rlimit(100)]
pub proof fn law_game_numbered_thread_name()
    ensures
        classify_spec(builtin_rules(), "Game1"@) == CoreTarget::BigAndPrime,
{
    let rs = builtin_rules();
    reveal_strlit("*[Aa]nim*");
    reveal_strlit("*[Pp]ool*");
    reveal_strlit("1.raster");
    reveal_strlit("1.ui");
    reveal_strlit("2.ui");
    reveal_strlit("?.raster");
    reveal_strlit("?.ui");
    reveal_strlit("AILocalThread");
    reveal_strlit("APM_light-weigh");
    reveal_strlit("AndroidRender");
    reveal_strlit("AndroidUI");
    reveal_strlit("AnimationThread");
    reveal_strlit("AsyncTask*");
    reveal_strlit("AudioThread");
    reveal_strlit("AudioTrack");
    reveal_strlit("CallbackHndlr");
    reveal_strlit("Chrome_ChildIOT");
    reveal_strlit("Chrome_IOThread");
    reveal_strlit("Chrome_InProcGp");
    reveal_strlit("Chrome_InProcRe");
    reveal_strlit("Compositor");
    reveal_strlit("CoreThread");
    reveal_strlit("CrRendererMain");
    reveal_strlit("DefaultDispatch");
    reveal_strlit("DefaultExecutor");
    reveal_strlit("DispatchQueuePo");
    reveal_strlit("GLThread*");
    reveal_strlit("GPM-DataThread");
    reveal_strlit("Game1");
    reveal_strlit("GameThread");
    reveal_strlit("Game[0-9]*");
    reveal_strlit("GcamViewfinder");
    reveal_strlit("Gecko");
    reveal_strlit("HeapTaskDaemon");
    reveal_strlit("IL2CPP*");
    reveal_strlit("InputDispatcher");
    reveal_strlit("InsetsAnimation");
    reveal_strlit("JNISurfaceTextu");
    reveal_strlit("JavaBridge");
    reveal_strlit("Jit thread pool");
    reveal_strlit("LogAppendWork");
    reveal_strlit("LogicThread");
    reveal_strlit("Lynx_JS");
    reveal_strlit("MainThread");
    reveal_strlit("Mainloop");
    reveal_strlit("MiniRainbowMain");
    reveal_strlit("MiniRenderThrea");
    reveal_strlit("NetworkService");
    reveal_strlit("PakMergeThread");
    reveal_strlit("Phenix-Schedule");
    reveal_strlit("RHIThread");
    reveal_strlit("RenderEngine");
    reveal_strlit("RenderThread");
    reveal_strlit("RenderingThread");
    reveal_strlit("RxCachedThreadS");
    reveal_strlit("ShaderCompiling");
    reveal_strlit("Socket Thread");
    reveal_strlit("ThumbnailStorag");
    reveal_strlit("UEGameThread");
    reveal_strlit("UnityGfxDeviceW");
    reveal_strlit("UnityMain");
    reveal_strlit("UnityPreload");
    reveal_strlit("VCMainThread");
    reveal_strlit("VizWebView");
    reveal_strlit("VulkanRenderMan");
    reveal_strlit("Web Content");
    reveal_strlit("Worker Thread");
    reveal_strlit("alsoft-mixer");
    reveal_strlit("arch_disk*");
    reveal_strlit("arch_disk_*");
    reveal_strlit("fileUploadQueue");
    reveal_strlit("glide*");
    reveal_strlit("glide-*");
    reveal_strlit("looper_monitor");
    reveal_strlit("main");
    reveal_strlit("mqt_*");
    reveal_strlit("searchQueue");
    reveal_with_fuel(matches_from, 11);
    reveal_with_fuel(class_items_end, 4);
    reveal_with_fuel(class_items_hit, 4);
    assert(classify_spec(rs, "Game1"@) == CoreTarget::BigAndPrime) by {
        let name = "Game1"@;
        assert(name.len() == 5);
        assert forall|j: int| 0 <= j < rs.len() && rs[j].priority == 100 implies #[trigger] rs[
            j
        ].pattern != name by {
            let p = rs[j].pattern;
            assert(p == name ==> p.len() == 5 && p[0] == name[0] && p[1] == name[1] && p[2] == name[2] && p[3] == name[3] && p[4] == name[4]);
        }
        assert forall|j: int| 0 <= j < 37 && rs[j].priority == 50 implies !glob_spec(
            #[trigger] rs[j].pattern,
            name,
        ) by {}
        assert(glob_spec(rs[37].pattern, name));
        lemma_wildcard_entry_wins(name, 37);
    }
}

/// A `Job.Worker` (or `Job.worker`) thread goes to the big cores (the entry
/// `Job.[Ww]orker*`), as this name shows:
/// `Job.Worker1` (`Job.[Ww]orker*`).
#[verifier::spinoff_prover]
#[verifier::rlimit(100)]
pub proof fn law_job_worker_thread_name()
    ensures
        classify_spec(builtin_rules(), "Job.Worker1"@) == CoreTarget::Big,
{
    let rs = builtin_rules();
    reveal_strlit("*Dispatcher");
    reveal_strlit("*[Aa]nim*");
    reveal_strlit("*[Pp]ool*");
    reveal_strlit("1.raster");
    reveal_strlit("1.ui");
    reveal_strlit("2.ui");
    reveal_strlit("?.raster");
    reveal_strlit("?.ui");
    reveal_strlit("AILocalThread");
    reveal_strlit("APM_light-weigh");
    reveal_strlit("AndroidRender");
    reveal_strlit("AndroidUI");
    reveal_strlit("AnimationThread");
    reveal_strlit("AsyncTask*");
    reveal_strlit("AudioThread");
    reveal_strlit("AudioTrack");
    reveal_strlit("CallbackHndlr");
    reveal_strlit("Chrome_ChildIOT");
    reveal_strlit("Chrome_IOThread");
    reveal_strlit("Chrome_InProcGp");
    reveal_strlit("Chrome_InProcRe");
    reveal_strlit("Compositor");
    reveal_strlit("CoreThread");
    reveal_strlit("CrRendererMain");
    reveal_strlit("DefaultDispatch");
    reveal_strlit("DefaultExecutor");
    reveal_strlit("DispatchQueuePo");
    reveal_strlit("GLThread*");
    reveal_strlit("GPM-DataThread");
    reveal_strlit("GameThread");
    reveal_strlit("Game[0-9]*");
    reveal_strlit("GcamViewfinder");
    reveal_strlit("Gecko");
    reveal_strlit("HeapTaskDaemon");
    reveal_strlit("IL2CPP*");
    reveal_strlit("IOThread*");
    reveal_strlit("InputDispatcher");
    reveal_strlit("InsetsAnimation");
    reveal_strlit("JNISurfaceTextu");
    reveal_strlit("JavaBridge");
    reveal_strlit("Jit thread pool");
    reveal_strlit("Job.Worker1");
    reveal_strlit("Job.[Ww]orker*");
    reveal_strlit("LogAppendWork");
    reveal_strlit("LogicThread");
    reveal_strlit("Lynx_JS");
    reveal_strlit("MainThread");
    reveal_strlit("Mainloop");
    reveal_strlit("MiniRainbowMain");
    reveal_strlit("MiniRenderThrea");
    reveal_strlit("NetworkService");
    reveal_strlit("PakMergeThread");
    reveal_strlit("Phenix-Schedule");
    reveal_strlit("RHIThread");
    reveal_strlit("RenderEngine");
    reveal_strlit("RenderThread");
    reveal_strlit("RenderThread*");
    reveal_strlit("RenderingThread");
    reveal_strlit("RxCachedThreadS");
    reveal_strlit("ShaderCompiling");
    reveal_strlit("Socket Thread");
    reveal_strlit("ThumbnailStorag");
    reveal_strlit("UEGameThread");
    reveal_strlit("UnityGfx*");
    reveal_strlit("UnityGfxDeviceW");
    reveal_strlit("UnityMain");
    reveal_strlit("UnityPreload");
    reveal_strlit("VCMainThread");
    reveal_strlit("VDecod*");
    reveal_strlit("VizCompositor");
    reveal_strlit("VizWebView");
    reveal_strlit("VulkanRenderMan");
    reveal_strlit("Web Content");
    reveal_strlit("Worker Thread");
    reveal_strlit("alsoft-mixer");
    reveal_strlit("arch_disk*");
    reveal_strlit("arch_disk_*");
    reveal_strlit("fileUploadQueue");
    reveal_strlit("files_database*");
    reveal_strlit("glide*");
    reveal_strlit("glide-*");
    reveal_strlit("hwui*");
    reveal_strlit("hwuiTask*");
    reveal_strlit("looper_monitor");
    reveal_strlit("main");
    reveal_strlit("mali-*");
    reveal_strlit("mqt_*");
    reveal_strlit("searchQueue");
    reveal_strlit("stageQueue*");
    reveal_with_fuel(matches_from, 17);
    reveal_with_fuel(class_items_end, 4);
    reveal_with_fuel(class_items_hit, 4);
    assert(classify_spec(rs, "Job.Worker1"@) == CoreTarget::Big) by {
        let name = "Job.Worker1"@;
        assert(name.len() == 11);
        assert forall|j: int| 0 <= j < rs.len() && rs[j].priority == 100 implies #[trigger] rs[
            j
        ].pattern != name by {
            let p = rs[j].pattern;
            assert(p == name ==> p.len() == 11 && p[0] == name[0] && p[1] == name[1] && p[2] == name[2] && p[3] == name[3] && p[4] == name[4] && p[5] == name[5] && p[6] == name[6] && p[7] == name[7] && p[8] == name[8] && p[9] == name[9] && p[10] == name[10]);
        }
        assert forall|j: int| 0 <= j < 58 && rs[j].priority == 50 implies !glob_spec(
            #[trigger] rs[j].pattern,
            name,
        ) by {}
        assert(glob_spec(rs[58].pattern, name));
        lemma_wildcard_entry_wins(name, 58);
    }
}

/// A `beacon-thread-` thread goes to the big cores (the entry
/// `beacon-thread-*`), as this name shows:
/// `beacon-thread-1` (`beacon-thread-*`).
#[verifier::spinoff_prover]
#[verifier::rlimit(100)]
pub proof fn law_beacon_thread_name()
    ensures
        classify_spec(builtin_rules(), "beacon-thread-1"@) == CoreTarget::Big,
{
    let rs = builtin_rules();
    reveal_strlit("*Dispatcher");
    reveal_strlit("*Worker*");
    reveal_strlit("*[Aa]nim*");
    reveal_strlit("*[Bb]ackStage*");
    reveal_strlit("*[Bb]inder*");
    reveal_strlit("*[Hh]ttp*");
    reveal_strlit("*[Pp]ool*");
    reveal_strlit("*worker*");
    reveal_strlit("1.raster");
    reveal_strlit("1.ui");
    reveal_strlit("2.ui");
    reveal_strlit("?.io");
    reveal_strlit("?.raster");
    reveal_strlit("?.ui");
    reveal_strlit("AILocalThread");
    reveal_strlit("APM_light-weigh");
    reveal_strlit("AndroidRender");
    reveal_strlit("AndroidUI");
    reveal_strlit("AnimationThread");
    reveal_strlit("AsyncTask*");
    reveal_strlit("AudioThread");
    reveal_strlit("AudioTrack");
    reveal_strlit("Binder:*");
    reveal_strlit("CallbackHndlr");
    reveal_strlit("Chrome_ChildIOT");
    reveal_strlit("Chrome_IOThread");
    reveal_strlit("Chrome_InProcGp");
    reveal_strlit("Chrome_InProcRe");
    reveal_strlit("ChromiumNet*");
    reveal_strlit("Compositor");
    reveal_strlit("Compute*");
    reveal_strlit("CoreThread");
    reveal_strlit("CrRendererMain");
    reveal_strlit("DartWorker*");
    reveal_strlit("DefaultDispatch");
    reveal_strlit("DefaultExecutor");
    reveal_strlit("DispatchQueuePo");
    reveal_strlit("ExoPlayer:*");
    reveal_strlit("GLThread*");
    reveal_strlit("GPM-DataThread");
    reveal_strlit("GameThread");
    reveal_strlit("Game[0-9]*");
    reveal_strlit("GcamViewfinder");
    reveal_strlit("Gecko");
    reveal_strlit("HeapTaskDaemon");
    reveal_strlit("HwBinder:*");
    reveal_strlit("IL2CPP*");
    reveal_strlit("IOThread*");
    reveal_strlit("IPC*");
    reveal_strlit("IPDL*");
    reveal_strlit("InputDispatcher");
    reveal_strlit("InsetsAnimation");
    reveal_strlit("JNISurfaceTextu");
    reveal_strlit("JavaBridge");
    reveal_strlit("Jit thread pool");
    reveal_strlit("Job.[Ww]orker*");
    reveal_strlit("JobThread*");
    reveal_strlit("LogAppendWork");
    reveal_strlit("LogicThread");
    reveal_strlit("Lynx_JS");
    reveal_strlit("MainThread");
    reveal_strlit("MainThread*");
    reveal_strlit("Mainloop");
    reveal_strlit("MiniRainbowMain");
    reveal_strlit("MiniRenderThrea");
    reveal_strlit("NativeThread*");
    reveal_strlit("NetworkService");
    reveal_strlit("OkHttp*");
    reveal_strlit("PakMergeThread");
    reveal_strlit("Phenix-Schedule");
    reveal_strlit("PoolThread*");
    reveal_strlit("RHIThread");
    reveal_strlit("RHIThread*");
    reveal_strlit("RenderEngine");
    reveal_strlit("RenderThread");
    reveal_strlit("RenderThread*");
    reveal_strlit("RenderingThread");
    reveal_strlit("RxCachedThreadS");
    reveal_strlit("ShaderCompiling");
    reveal_strlit("Socket Thread");
    reveal_strlit("Task*");
    reveal_strlit("TaskGraph*");
    reveal_strlit("Thread-*");
    reveal_strlit("ThumbnailStorag");
    reveal_strlit("UEGameThread");
    reveal_strlit("UnityGfx*");
    reveal_strlit("UnityGfxDeviceW");
    reveal_strlit("UnityMain");
    reveal_strlit("UnityMultiRende*");
    reveal_strlit("UnityPreload");
    reveal_strlit("UnityPreload*");
    reveal_strlit("VCMainThread");
    reveal_strlit("VDecod*");
    reveal_strlit("VizCompositor");
    reveal_strlit("VizWebView");
    reveal_strlit("VulkanRenderMan");
    reveal_strlit("Web Content");
    reveal_strlit("Worker Thread");
    reveal_strlit("[Bb]inder:*");
    reveal_strlit("alsoft-mixer");
    reveal_strlit("arch_disk*");
    reveal_strlit("arch_disk_*");
    reveal_strlit("beacon-thread-*");
    reveal_strlit("beacon-thread-1");
    reveal_strlit("binder:*");
    reveal_strlit("fileUploadQueue");
    reveal_strlit("files_database*");
    reveal_strlit("glide*");
    reveal_strlit("glide-*");
    reveal_strlit("hwui*");
    reveal_strlit("hwuiTask*");
    reveal_strlit("io.worker*");
    reveal_strlit("looper_monitor");
    reveal_strlit("main");
    reveal_strlit("mali-*");
    reveal_strlit("mqt_*");
    reveal_strlit("searchQueue");
    reveal_strlit("stageQueue*");
    reveal_with_fuel(matches_from, 21);
    reveal_with_fuel(class_items_end, 4);
    reveal_with_fuel(class_items_hit, 4);
    assert(classify_spec(rs, "beacon-thread-1"@) == CoreTarget::Big) by {
        let name = "beacon-thread-1"@;
        assert(name.len() == 15);
        assert forall|j: int| 0 <= j < rs.len() && rs[j].priority == 100 implies #[trigger] rs[
            j
        ].pattern != name by {
            let p = rs[j].pattern;
            assert(p == name ==> p.len() == 15 && p[0] == name[0] && p[1] == name[1] && p[2] == name[2] && p[3] == name[3] && p[4] == name[4] && p[5] == name[5] && p[6] == name[6] && p[7] == name[7] && p[8] == name[8] && p[9] == name[9] && p[10] == name[10] && p[11] == name[11] && p[12] == name[12] && p[13] == name[13] && p[14] == name[14]);
        }
        assert forall|j: int| 0 <= j < 100 && rs[j].priority == 50 implies !glob_spec(
            #[trigger] rs[j].pattern,
            name,
        ) by {}
        assert(glob_spec(rs[100].pattern, name));
        lemma_wildcard_entry_wins(name, 100);
    }
}

/// A thread of a numbered executor pool named with a leading `#` goes to the
/// little and big cores (the entry `#pool-[0-9]*-thread*`), as this name
/// shows:
/// `#pool-1-thread-1` (`#pool-[0-9]*-thread*`).
#[verifier::spinoff_prover]
#[verifier::rlimit(100)]
pub proof fn law_hash_numbered_pool_thread_name()
    ensures
        classify_spec(builtin_rules(), "#pool-1-thread-1"@) == CoreTarget::LittleAndBig,
{
    let rs = builtin_rules();
    reveal_strlit("#pool-1-thread-1");
    reveal_strlit("#pool-[0-9]*-thread*");
    reveal_strlit("*Dispatcher");
    reveal_strlit("*Event*");
    reveal_strlit("*TaskQueue*");
    reveal_strlit("*Worker*");
    reveal_strlit("*[Aa]nim*");
    reveal_strlit("*[Bb]ackStage*");
    reveal_strlit("*[Bb]inder*");
    reveal_strlit("*[Hh]ttp*");
    reveal_strlit("*[Pp]ool*");
    reveal_strlit("*worker*");
    reveal_strlit("1.raster");
    reveal_strlit("1.ui");
    reveal_strlit("2.ui");
    reveal_strlit("?.io");
    reveal_strlit("?.raster");
    reveal_strlit("?.ui");
    reveal_strlit("AILocalThread");
    reveal_strlit("AOutle*");
    reveal_strlit("APM_light-weigh");
    reveal_strlit("AndroidRender");
    reveal_strlit("AndroidUI");
    reveal_strlit("AnimationThread");
    reveal_strlit("AsyncTask*");
    reveal_strlit("AudioThread");
    reveal_strlit("AudioTrack");
    reveal_strlit("Binder:*");
    reveal_strlit("CRI*");
    reveal_strlit("CallbackHndlr");
    reveal_strlit("Chrome_ChildIOT");
    reveal_strlit("Chrome_IOThread");
    reveal_strlit("Chrome_InProcGp");
    reveal_strlit("Chrome_InProcRe");
    reveal_strlit("ChromiumNet*");
    reveal_strlit("CodecLooper*");
    reveal_strlit("Compositor");
    reveal_strlit("Compute*");
    reveal_strlit("CoreThread");
    reveal_strlit("CrRendererMain");
    reveal_strlit("DartWorker*");
    reveal_strlit("DefaultDispatch");
    reveal_strlit("DefaultExecutor");
    reveal_strlit("DispatchQueuePo");
    reveal_strlit("ExoPlayer:*");
    reveal_strlit("GLThread*");
    reveal_strlit("GPM-DataThread");
    reveal_strlit("GameThread");
    reveal_strlit("Game[0-9]*");
    reveal_strlit("GcamViewfinder");
    reveal_strlit("Gecko");
    reveal_strlit("HeapTaskDaemon");
    reveal_strlit("HwBinder:*");
    reveal_strlit("IL2CPP*");
    reveal_strlit("IOThread*");
    reveal_strlit("IPC*");
    reveal_strlit("IPDL*");
    reveal_strlit("InputDispatcher");
    reveal_strlit("InsetsAnimation");
    reveal_strlit("JNISurfaceTextu");
    reveal_strlit("JavaBridge");
    reveal_strlit("Jit thread pool");
    reveal_strlit("Job.[Ww]orker*");
    reveal_strlit("JobThread*");
    reveal_strlit("LogAppendWork");
    reveal_strlit("LogicThread");
    reveal_strlit("Lynx_JS");
    reveal_strlit("MainThread");
    reveal_strlit("MainThread*");
    reveal_strlit("Mainloop");
    reveal_strlit("MediaCodec*");
    reveal_strlit("MiniRainbowMain");
    reveal_strlit("MiniRenderThrea");
    reveal_strlit("NativeThread*");
    reveal_strlit("NetworkService");
    reveal_strlit("OkHttp*");
    reveal_strlit("PakMergeThread");
    reveal_strlit("Phenix-Schedule");
    reveal_strlit("PoolThread*");
    reveal_strlit("RHIThread");
    reveal_strlit("RHIThread*");
    reveal_strlit("RenderEngine");
    reveal_strlit("RenderThread");
    reveal_strlit("RenderThread*");
    reveal_strlit("RenderingThread");
    reveal_strlit("RxCachedThreadS");
    reveal_strlit("ShaderCompiling");
    reveal_strlit("Shared_w*");
    reveal_strlit("Socket Thread");
    reveal_strlit("Task*");
    reveal_strlit("TaskGraph*");
    reveal_strlit("Thread-*");
    reveal_strlit("ThreadPool*");
    reveal_strlit("ThreadPoolForeg*");
    reveal_strlit("ThreadPoolServi*");
    reveal_strlit("ThumbnailStorag");
    reveal_strlit("UEGameThread");
    reveal_strlit("UnityGfx*");
    reveal_strlit("UnityGfxDeviceW");
    reveal_strlit("UnityMain");
    reveal_strlit("UnityMultiRende*");
    reveal_strlit("UnityPreload");
    reveal_strlit("UnityPreload*");
    reveal_strlit("VCMainThread");
    reveal_strlit("VDecod*");
    reveal_strlit("VOutle*");
    reveal_strlit("VizCompositor");
    reveal_strlit("VizWebView");
    reveal_strlit("VulkanRenderMan");
    reveal_strlit("Web Content");
    reveal_strlit("Worker Thread");
    reveal_strlit("[Bb]inder:*");
    reveal_strlit("alsoft-mixer");
    reveal_strlit("arch_disk*");
    reveal_strlit("arch_disk_*");
    reveal_strlit("beacon-thread-*");
    reveal_strlit("binder:*");
    reveal_strlit("fileUploadQueue");
    reveal_strlit("files_database*");
    reveal_strlit("glide*");
    reveal_strlit("glide-*");
    reveal_strlit("hwui*");
    reveal_strlit("hwuiTask*");
    reveal_strlit("io.worker*");
    reveal_strlit("looper_monitor");
    reveal_strlit("main");
    reveal_strlit("mali-*");
    reveal_strlit("mpv/*");
    reveal_strlit("mqt_*");
    reveal_strlit("pool-[0-9]*-thread*");
    reveal_strlit("searchQueue");
    reveal_strlit("stageQueue*");
    reveal_strlit("storageQueue*");
    reveal_with_fuel(matches_from, 22);
    reveal_with_fuel(class_items_end, 4);
    reveal_with_fuel(class_items_hit, 4);
    assert(classify_spec(rs, "#pool-1-thread-1"@) == CoreTarget::LittleAndBig) by {
        let name = "#pool-1-thread-1"@;
        assert(name.len() == 16);
        assert forall|j: int| 0 <= j < rs.len() && rs[j].priority == 100 implies #[trigger] rs[
            j
        ].pattern != name by {
            let p = rs[j].pattern;
            assert(p == name ==> p.len() == 16 && p[0] == name[0] && p[1] == name[1] && p[2] == name[2] && p[3] == name[3] && p[4] == name[4] && p[5] == name[5] && p[6] == name[6] && p[7] == name[7] && p[8] == name[8] && p[9] == name[9] && p[10] == name[10] && p[11] == name[11] && p[12] == name[12] && p[13] == name[13] && p[14] == name[14] && p[15] == name[15]);
        }
        assert forall|j: int| 0 <= j < 126 && rs[j].priority == 50 implies !glob_spec(
            #[trigger] rs[j].pattern,
            name,
        ) by {}
        assert(glob_spec(rs[126].pattern, name));
        lemma_wildcard_entry_wins(name, 126);
    }
}

/// A thread whose name holds `ColdPool` goes to the little and big cores
/// (the entry `*ColdPool*`), as this name shows:
/// `ColdPool` (`*ColdPool*`).
#[verifier::spinoff_prover]
#[verifier::rlimit(100)]
pub proof fn law_cold_pool_thread_name()
    ensures
        classify_spec(builtin_rules(), "ColdPool"@) == CoreTarget::LittleAndBig,
{
    let rs = builtin_rules();
    reveal_strlit("#pool-[0-9]*-thread*");
    reveal_strlit("*ColdPool*");
    reveal_strlit("*Dispatcher");
    reveal_strlit("*Event*");
    reveal_strlit("*TaskQueue*");
    reveal_strlit("*Worker*");
    reveal_strlit("*[Aa]nim*");
    reveal_strlit("*[Bb]ackStage*");
    reveal_strlit("*[Bb]inder*");
    reveal_strlit("*[Hh]ttp*");
    reveal_strlit("*[Pp]ool*");
    reveal_strlit("*worker*");
    reveal_strlit("1.raster");
    reveal_strlit("1.ui");
    reveal_strlit("2.ui");
    reveal_strlit("?.io");
    reveal_strlit("?.raster");
    reveal_strlit("?.ui");
    reveal_strlit("AILocalThread");
    reveal_strlit("AOutle*");
    reveal_strlit("APM_light-weigh");
    reveal_strlit("AndroidRender");
    reveal_strlit("AndroidUI");
    reveal_strlit("AnimationThread");
    reveal_strlit("AsyncTask*");
    reveal_strlit("AudioThread");
    reveal_strlit("AudioTrack");
    reveal_strlit("Binder:*");
    reveal_strlit("CRI*");
    reveal_strlit("CallbackHndlr");
    reveal_strlit("Chrome_ChildIOT");
    reveal_strlit("Chrome_IOThread");
    reveal_strlit("Chrome_InProcGp");
    reveal_strlit("Chrome_InProcRe");
    reveal_strlit("ChromiumNet*");
    reveal_strlit("CodecLooper*");
    reveal_strlit("ColdPool");
    reveal_strlit("Compositor");
    reveal_strlit("Compute*");
    reveal_strlit("CoreThread");
    reveal_strlit("CrRendererMain");
    reveal_strlit("DartWorker*");
    reveal_strlit("DefaultDispatch");
    reveal_strlit("DefaultExecutor");
    reveal_strlit("DispatchQueuePo");
    reveal_strlit("ExoPlayer:*");
    reveal_strlit("GLThread*");
    reveal_strlit("GPM-DataThread");
    reveal_strlit("GameThread");
    reveal_strlit("Game[0-9]*");
    reveal_strlit("GcamViewfinder");
    reveal_strlit("Gecko");
    reveal_strlit("HeapTaskDaemon");
    reveal_strlit("HwBinder:*");
    reveal_strlit("IL2CPP*");
    reveal_strlit("IOThread*");
    reveal_strlit("IPC*");
    reveal_strlit("IPDL*");
    reveal_strlit("InputDispatcher");
    reveal_strlit("InsetsAnimation");
    reveal_strlit("JNISurfaceTextu");
    reveal_strlit("JavaBridge");
    reveal_strlit("Jit thread pool");
    reveal_strlit("Job.[Ww]orker*");
    reveal_strlit("JobThread*");
    reveal_strlit("LogAppendWork");
    reveal_strlit("LogicThread");
    reveal_strlit("Lynx_JS");
    reveal_strlit("MainThread");
    reveal_strlit("MainThread*");
    reveal_strlit("Mainloop");
    reveal_strlit("MediaCodec*");
    reveal_strlit("MiniRainbowMain");
    reveal_strlit("MiniRenderThrea");
    reveal_strlit("NativeThread*");
    reveal_strlit("NetworkService");
    reveal_strlit("OkHttp*");
    reveal_strlit("PakMergeThread");
    reveal_strlit("Phenix-Schedule");
    reveal_strlit("PoolThread*");
    reveal_strlit("RHIThread");
    reveal_strlit("RHIThread*");
    reveal_strlit("RenderEngine");
    reveal_strlit("RenderThread");
    reveal_strlit("RenderThread*");
    reveal_strlit("RenderingThread");
    reveal_strlit("RxCachedThreadS");
    reveal_strlit("ShaderCompiling");
    reveal_strlit("Shared_w*");
    reveal_strlit("Socket Thread");
    reveal_strlit("Task*");
    reveal_strlit("TaskGraph*");
    reveal_strlit("Thread-*");
    reveal_strlit("ThreadPool*");
    reveal_strlit("ThreadPoolForeg*");
    reveal_strlit("ThreadPoolServi*");
    reveal_strlit("ThumbnailStorag");
    reveal_strlit("UEGameThread");
    reveal_strlit("UnityGfx*");
    reveal_strlit("UnityGfxDeviceW");
    reveal_strlit("UnityMain");
    reveal_strlit("UnityMultiRende*");
    reveal_strlit("UnityPreload");
    reveal_strlit("UnityPreload*");
    reveal_strlit("VCMainThread");
    reveal_strlit("VDecod*");
    reveal_strlit("VOutle*");
    reveal_strlit("VizCompositor");
    reveal_strlit("VizWebView");
    reveal_strlit("VulkanRenderMan");
    reveal_strlit("Web Content");
    reveal_strlit("Worker Thread");
    reveal_strlit("[Bb]inder:*");
    reveal_strlit("alsoft-mixer");
    reveal_strlit("arch_disk*");
    reveal_strlit("arch_disk_*");
    reveal_strlit("beacon-thread-*");
    reveal_strlit("binder:*");
    reveal_strlit("cached-pool-*");
    reveal_strlit("fileUploadQueue");
    reveal_strlit("files_database*");
    reveal_strlit("glide*");
    reveal_strlit("glide-*");
    reveal_strlit("hwui*");
    reveal_strlit("hwuiTask*");
    reveal_strlit("io.worker*");
    reveal_strlit("ledThreadPool-*");
    reveal_strlit("looper_monitor");
    reveal_strlit("main");
    reveal_strlit("mali-*");
    reveal_strlit("mpv/*");
    reveal_strlit("mqt_*");
    reveal_strlit("onPool-worker-*");
    reveal_strlit("pivotal-pool-*");
    reveal_strlit("pool-[0-9]*-thread*");
    reveal_strlit("rx-pool-*");
    reveal_strlit("searchQueue");
    reveal_strlit("stageQueue*");
    reveal_strlit("storageQueue*");
    reveal_strlit("vrpool-*");
    reveal_with_fuel(matches_from, 14);
    reveal_with_fuel(class_items_end, 4);
    reveal_with_fuel(class_items_hit, 4);
    assert(classify_spec(rs, "ColdPool"@) == CoreTarget::LittleAndBig) by {
        let name = "ColdPool"@;
        assert(name.len() == 8);
        assert forall|j: int| 0 <= j < rs.len() && rs[j].priority == 100 implies #[trigger] rs[
            j
        ].pattern != name by {
            let p = rs[j].pattern;
            assert(p == name ==> p.len() == 8 && p[0] == name[0] && p[1] == name[1] && p[2] == name[2] && p[3] == name[3] && p[4] == name[4] && p[5] == name[5] && p[6] == name[6] && p[7] == name[7]);
        }
        assert forall|j: int| 0 <= j < 133 && rs[j].priority == 50 implies !glob_spec(
            #[trigger] rs[j].pattern,
            name,
        ) by {}
        assert(glob_spec(rs[133].pattern, name));
        lemma_wildcard_entry_wins(name, 133);
    }
}

/// A thread whose name holds `HotPool` goes to the little and big cores (the
/// entry `*HotPool*`), as this name shows:
/// `HotPool` (`*HotPool*`).
#[verifier::spinoff_prover]
#[verifier::rlimit(100)]
pub proof fn law_hot_pool_thread_name()
    ensures
        classify_spec(builtin_rules(), "HotPool"@) == CoreTarget::LittleAndBig,
{
    let rs = builtin_rules();
    reveal_strlit("#pool-[0-9]*-thread*");
    reveal_strlit("*ColdPool*");
    reveal_strlit("*Dispatcher");
    reveal_strlit("*Event*");
    reveal_strlit("*HotPool*");
    reveal_strlit("*TaskQueue*");
    reveal_strlit("*Worker*");
    reveal_strlit("*[Aa]nim*");
    reveal_strlit("*[Bb]ackStage*");
    reveal_strlit("*[Bb]inder*");
    reveal_strlit("*[Hh]ttp*");
    reveal_strlit("*[Pp]ool*");
    reveal_strlit("*worker*");
    reveal_strlit("1.raster");
    reveal_strlit("1.ui");
    reveal_strlit("2.ui");
    reveal_strlit("?.io");
    reveal_strlit("?.raster");
    reveal_strlit("?.ui");
    reveal_strlit("AILocalThread");
    reveal_strlit("AOutle*");
    reveal_strlit("APM_light-weigh");
    reveal_strlit("AndroidRender");
    reveal_strlit("AndroidUI");
    reveal_strlit("AnimationThread");
    reveal_strlit("AsyncTask*");
    reveal_strlit("AudioThread");
    reveal_strlit("AudioTrack");
    reveal_strlit("Binder:*");
    reveal_strlit("CRI*");
    reveal_strlit("CallbackHndlr");
    reveal_strlit("Chrome_ChildIOT");
    reveal_strlit("Chrome_IOThread");
    reveal_strlit("Chrome_InProcGp");
    reveal_strlit("Chrome_InProcRe");
    reveal_strlit("ChromiumNet*");
    reveal_strlit("CodecLooper*");
    reveal_strlit("Compositor");
    reveal_strlit("Compute*");
    reveal_strlit("CoreThread");
    reveal_strlit("CrRendererMain");
    reveal_strlit("DartWorker*");
    reveal_strlit("DefaultDispatch");
    reveal_strlit("DefaultExecutor");
    reveal_strlit("DispatchQueuePo");
    reveal_strlit("ExoPlayer:*");
    reveal_strlit("GLThread*");
    reveal_strlit("GPM-DataThread");
    reveal_strlit("GameThread");
    reveal_strlit("Game[0-9]*");
    reveal_strlit("GcamViewfinder");
    reveal_strlit("Gecko");
    reveal_strlit("HeapTaskDaemon");
    reveal_strlit("HotPool");
    reveal_strlit("HwBinder:*");
    reveal_strlit("IL2CPP*");
    reveal_strlit("IOThread*");
    reveal_strlit("IPC*");
    reveal_strlit("IPDL*");
    reveal_strlit("InputDispatcher");
    reveal_strlit("InsetsAnimation");
    reveal_strlit("JNISurfaceTextu");
    reveal_strlit("JavaBridge");
    reveal_strlit("Jit thread pool");
    reveal_strlit("Job.[Ww]orker*");
    reveal_strlit("JobThread*");
    reveal_strlit("LogAppendWork");
    reveal_strlit("LogicThread");
    reveal_strlit("Lynx_JS");
    reveal_strlit("MainThread");
    reveal_strlit("MainThread*");
    reveal_strlit("Mainloop");
    reveal_strlit("MediaCodec*");
    reveal_strlit("MiniRainbowMain");
    reveal_strlit("MiniRenderThrea");
    reveal_strlit("NativeThread*");
    reveal_strlit("NetworkService");
    reveal_strlit("OkHttp*");
    reveal_strlit("PakMergeThread");
    reveal_strlit("Phenix-Schedule");
    reveal_strlit("PoolThread*");
    reveal_strlit("RHIThread");
    reveal_strlit("RHIThread*");
    reveal_strlit("RenderEngine");
    reveal_strlit("RenderThread");
    reveal_strlit("RenderThread*");
    reveal_strlit("RenderingThread");
    reveal_strlit("RxCachedThreadS");
    reveal_strlit("ShaderCompiling");
    reveal_strlit("Shared_w*");
    reveal_strlit("Socket Thread");
    reveal_strlit("Task*");
    reveal_strlit("TaskGraph*");
    reveal_strlit("Thread-*");
    reveal_strlit("ThreadPool*");
    reveal_strlit("ThreadPoolForeg*");
    reveal_strlit("ThreadPoolServi*");
    reveal_strlit("ThumbnailStorag");
    reveal_strlit("UEGameThread");
    reveal_strlit("UnityGfx*");
    reveal_strlit("UnityGfxDeviceW");
    reveal_strlit("UnityMain");
    reveal_strlit("UnityMultiRende*");
    reveal_strlit("UnityPreload");
    reveal_strlit("UnityPreload*");
    reveal_strlit("VCMainThread");
    reveal_strlit("VDecod*");
    reveal_strlit("VOutle*");
    reveal_strlit("VizCompositor");
    reveal_strlit("VizWebView");
    reveal_strlit("VulkanRenderMan");
    reveal_strlit("Web Content");
    reveal_strlit("Worker Thread");
    reveal_strlit("[Bb]inder:*");
    reveal_strlit("alsoft-mixer");
    reveal_strlit("arch_disk*");
    reveal_strlit("arch_disk_*");
    reveal_strlit("beacon-thread-*");
    reveal_strlit("binder:*");
    reveal_strlit("cached-pool-*");
    reveal_strlit("fileUploadQueue");
    reveal_strlit("files_database*");
    reveal_strlit("glide*");
    reveal_strlit("glide-*");
    reveal_strlit("hwui*");
    reveal_strlit("hwuiTask*");
    reveal_strlit("io.worker*");
    reveal_strlit("ledThreadPool-*");
    reveal_strlit("looper_monitor");
    reveal_strlit("main");
    reveal_strlit("mali-*");
    reveal_strlit("mpv/*");
    reveal_strlit("mqt_*");
    reveal_strlit("onPool-worker-*");
    reveal_strlit("pivotal-pool-*");
    reveal_strlit("pool-[0-9]*-thread*");
    reveal_strlit("rx-pool-*");
    reveal_strlit("searchQueue");
    reveal_strlit("stageQueue*");
    reveal_strlit("storageQueue*");
    reveal_strlit("vrpool-*");
    reveal_with_fuel(matches_from, 13);
    reveal_with_fuel(class_items_end, 4);
    reveal_with_fuel(class_items_hit, 4);
    assert(classify_spec(rs, "HotPool"@) == CoreTarget::LittleAndBig) by {
        let name = "HotPool"@;
        assert(name.len() == 7);
        assert forall|j: int| 0 <= j < rs.len() && rs[j].priority == 100 implies #[trigger] rs[
            j
        ].pattern != name by {
            let p = rs[j].pattern;
            assert(p == name ==> p.len() == 7 && p[0] == name[0] && p[1] == name[1] && p[2] == name[2] && p[3] == name[3] && p[4] == name[4] && p[5] == name[5] && p[6] == name[6]);
        }
        assert forall|j: int| 0 <= j < 134 && rs[j].priority == 50 implies !glob_spec(
            #[trigger] rs[j].pattern,
            name,
        ) by {}
        assert(glob_spec(rs[134].pattern, name));
        lemma_wildcard_entry_wins(name, 134);
    }
}

/// A thread whose name begins with `IO` and later holds `Thread` goes to the
/// little and big cores (the entry `IO*Thread*`), as this name shows:
/// `IO_Thread` (`IO*Thread*`).
#[verifier::spinoff_prover]
#[verifier::rlimit(100)]
pub proof fn law_io_thread_name()
    ensures
        classify_spec(builtin_rules(), "IO_Thread"@) == CoreTarget::LittleAndBig,
{
    let rs = builtin_rules();
    reveal_strlit("#pool-[0-9]*-thread*");
    reveal_strlit("*ColdPool*");
    reveal_strlit("*Dispatcher");
    reveal_strlit("*Event*");
    reveal_strlit("*HotPool*");
    reveal_strlit("*Loading*");
    reveal_strlit("*TaskQueue*");
    reveal_strlit("*ThreadPool*");
    reveal_strlit("*Worker*");
    reveal_strlit("*[Aa]nim*");
    reveal_strlit("*[Bb]ackStage*");
    reveal_strlit("*[Bb]inder*");
    reveal_strlit("*[Hh]ttp*");
    reveal_strlit("*[Pp]ool*");
    reveal_strlit("*worker*");
    reveal_strlit("1.raster");
    reveal_strlit("1.ui");
    reveal_strlit("2.ui");
    reveal_strlit("?.io");
    reveal_strlit("?.raster");
    reveal_strlit("?.ui");
    reveal_strlit("AILocalThread");
    reveal_strlit("AOutle*");
    reveal_strlit("APM_light-weigh");
    reveal_strlit("AndroidRender");
    reveal_strlit("AndroidUI");
    reveal_strlit("AnimationThread");
    reveal_strlit("AsyncTask*");
    reveal_strlit("AudioThread");
    reveal_strlit("AudioTrack");
    reveal_strlit("Binder:*");
    reveal_strlit("CRI*");
    reveal_strlit("CallbackHndlr");
    reveal_strlit("Chrome_ChildIOT");
    reveal_strlit("Chrome_IOThread");
    reveal_strlit("Chrome_InProcGp");
    reveal_strlit("Chrome_InProcRe");
    reveal_strlit("ChromiumNet*");
    reveal_strlit("CodecLooper*");
    reveal_strlit("Compositor");
    reveal_strlit("Compute*");
    reveal_strlit("CoreThread");
    reveal_strlit("CrRendererMain");
    reveal_strlit("CriManaDecode*");
    reveal_strlit("DartWorker*");
    reveal_strlit("DefaultDispatch");
    reveal_strlit("DefaultExecutor");
    reveal_strlit("DispatchQueuePo");
    reveal_strlit("DownloadThreadP*");
    reveal_strlit("ExoPlayer:*");
    reveal_strlit("FAsyncLoading*");
    reveal_strlit("FMOD*");
    reveal_strlit("GLThread*");
    reveal_strlit("GPM-DataThread");
    reveal_strlit("GameThread");
    reveal_strlit("Game[0-9]*");
    reveal_strlit("GcamViewfinder");
    reveal_strlit("Gecko");
    reveal_strlit("HadesLibPool*");
    reveal_strlit("HadesPool*");
    reveal_strlit("HeapTaskDaemon");
    reveal_strlit("HwBinder:*");
    reveal_strlit("IL2CPP*");
    reveal_strlit("IO*Thread*");
    reveal_strlit("IOThread*");
    reveal_strlit("IO_Thread");
    reveal_strlit("IPC*");
    reveal_strlit("IPDL*");
    reveal_strlit("InputDispatcher");
    reveal_strlit("InsetsAnimation");
    reveal_strlit("JNISurfaceTextu");
    reveal_strlit("JavaBridge");
    reveal_strlit("Jit thread pool");
    reveal_strlit("Job.[Ww]orker*");
    reveal_strlit("JobThread*");
    reveal_strlit("Loading.*");
    reveal_strlit("LogAppendWork");
    reveal_strlit("LogicThread");
    reveal_strlit("Lynx_JS");
    reveal_strlit("MainThread");
    reveal_strlit("MainThread*");
    reveal_strlit("Mainloop");
    reveal_strlit("MediaCodec*");
    reveal_strlit("MiniRainbowMain");
    reveal_strlit("MiniRenderThrea");
    reveal_strlit("NativeThread*");
    reveal_strlit("NetworkService");
    reveal_strlit("OkHttp*");
    reveal_strlit("PakMergeThread");
    reveal_strlit("Phenix-Schedule");
    reveal_strlit("PoolThread*");
    reveal_strlit("RHIThread");
    reveal_strlit("RHIThread*");
    reveal_strlit("RenderEngine");
    reveal_strlit("RenderThread");
    reveal_strlit("RenderThread*");
    reveal_strlit("RenderingThread");
    reveal_strlit("RxCachedThreadS");
    reveal_strlit("ShaderCompiling");
    reveal_strlit("Shared_w*");
    reveal_strlit("Socket Thread");
    reveal_strlit("SoundPool*");
    reveal_strlit("Task*");
    reveal_strlit("TaskGraph*");
    reveal_strlit("Thread-*");
    reveal_strlit("ThreadPool*");
    reveal_strlit("ThreadPoolForeg*");
    reveal_strlit("ThreadPoolServi*");
    reveal_strlit("ThumbnailStorag");
    reveal_strlit("UEGameThread");
    reveal_strlit("UnityChoreo*");
    reveal_strlit("UnityChoreograp*");
    reveal_strlit("UnityGfx*");
    reveal_strlit("UnityGfxDeviceW");
    reveal_strlit("UnityMain");
    reveal_strlit("UnityMultiRende*");
    reveal_strlit("UnityPreload");
    reveal_strlit("UnityPreload*");
    reveal_strlit("VCMainThread");
    reveal_strlit("VDecod*");
    reveal_strlit("VOutle*");
    reveal_strlit("VizCompositor");
    reveal_strlit("VizWebView");
    reveal_strlit("VulkanRenderMan");
    reveal_strlit("Web Content");
    reveal_strlit("Worker Thread");
    reveal_strlit("[Bb]inder:*");
    reveal_strlit("alsoft-mixer");
    reveal_strlit("arch_disk*");
    reveal_strlit("arch_disk_*");
    reveal_strlit("beacon-thread-*");
    reveal_strlit("binder:*");
    reveal_strlit("cached-pool-*");
    reveal_strlit("fileUploadQueue");
    reveal_strlit("files_database*");
    reveal_strlit("glide*");
    reveal_strlit("glide-*");
    reveal_strlit("hwui*");
    reveal_strlit("hwuiTask*");
    reveal_strlit("ijk_dash_pool_*");
    reveal_strlit("io.worker*");
    reveal_strlit("ledThreadPool-*");
    reveal_strlit("looper_monitor");
    reveal_strlit("main");
    reveal_strlit("mali-*");
    reveal_strlit("mpv/*");
    reveal_strlit("mqt_*");
    reveal_strlit("onPool-worker-*");
    reveal_strlit("pivotal-pool-*");
    reveal_strlit("pool-[0-9]*-thread*");
    reveal_strlit("rx-pool-*");
    reveal_strlit("searchQueue");
    reveal_strlit("stageQueue*");
    reveal_strlit("storageQueue*");
    reveal_strlit("vrpool-*");
    reveal_with_fuel(matches_from, 15);
    reveal_with_fuel(class_items_end, 4);
    reveal_with_fuel(class_items_hit, 4);
    assert(classify_spec(rs, "IO_Thread"@) == CoreTarget::LittleAndBig) by {
        let name = "IO_Thread"@;
        assert(name.len() == 9);
        assert forall|j: int| 0 <= j < rs.len() && rs[j].priority == 100 implies #[trigger] rs[
            j
        ].pattern != name by {
            let p = rs[j].pattern;
            assert(p == name ==> p.len() == 9 && p[0] == name[0] && p[1] == name[1] && p[2] == name[2] && p[3] == name[3] && p[4] == name[4] && p[5] == name[5] && p[6] == name[6] && p[7] == name[7] && p[8] == name[8]);
        }
        assert forall|j: int| 0 <= j < 150 && rs[j].priority == 50 implies !glob_spec(
            #[trigger] rs[j].pattern,
            name,
        ) by {}
        assert(glob_spec(rs[150].pattern, name));
        lemma_wildcard_entry_wins(name, 150);
    }
}

/// A garbage collector marker thread `GC?Marker??` goes to the little cores,
/// as this name shows:
/// `GC1Marker12` (`GC?Marker??`).
#[verifier::spinoff_prover]
#[verifier::rlimit(100)]
pub proof fn law_gc_marker_thread_name()
    ensures
        classify_spec(builtin_rules(), "GC1Marker12"@) == CoreTarget::Little,
{
    let rs = builtin_rules();
    reveal_strlit("#pool-[0-9]*-thread*");
    reveal_strlit("*ColdPool*");
    reveal_strlit("*Dispatcher");
    reveal_strlit("*Event*");
    reveal_strlit("*HotPool*");
    reveal_strlit("*Loading*");
    reveal_strlit("*TaskQueue*");
    reveal_strlit("*ThreadPool*");
    reveal_strlit("*Worker*");
    reveal_strlit("*[Aa]nim*");
    reveal_strlit("*[Aa]udio*");
    reveal_strlit("*[Bb]ackStage*");
    reveal_strlit("*[Bb]inder*");
    reveal_strlit("*[Hh]ttp*");
    reveal_strlit("*[Pp]ool*");
    reveal_strlit("*worker*");
    reveal_strlit("1.raster");
    reveal_strlit("1.ui");
    reveal_strlit("2.ui");
    reveal_strlit("?.io");
    reveal_strlit("?.raster");
    reveal_strlit("?.ui");
    reveal_strlit("AILocalThread");
    reveal_strlit("AOutle*");
    reveal_strlit("APM_light-weigh");
    reveal_strlit("AndroidRender");
    reveal_strlit("AndroidUI");
    reveal_strlit("AnimationThread");
    reveal_strlit("Apollo-*");
    reveal_strlit("AsyncTask*");
    reveal_strlit("AudioThread");
    reveal_strlit("AudioTrack");
    reveal_strlit("Binder:*");
    reveal_strlit("CRI*");
    reveal_strlit("CallbackHndlr");
    reveal_strlit("Chrome_ChildIOT");
    reveal_strlit("Chrome_IOThread");
    reveal_strlit("Chrome_InProcGp");
    reveal_strlit("Chrome_InProcRe");
    reveal_strlit("ChromiumNet*");
    reveal_strlit("CodecLooper*");
    reveal_strlit("Compositor");
    reveal_strlit("Compute*");
    reveal_strlit("CoreThread");
    reveal_strlit("CrRendererMain");
    reveal_strlit("CriManaDecode*");
    reveal_strlit("DartWorker*");
    reveal_strlit("DefaultDispatch");
    reveal_strlit("DefaultExecutor");
    reveal_strlit("DispatchQueuePo");
    reveal_strlit("DownloadThreadP*");
    reveal_strlit("ExoPlayer:*");
    reveal_strlit("FAsyncLoading*");
    reveal_strlit("FMOD*");
    reveal_strlit("GC1Marker12");
    reveal_strlit("GC?Marker??");
    reveal_strlit("GLThread*");
    reveal_strlit("GPM-DataThread");
    reveal_strlit("GameThread");
    reveal_strlit("Game[0-9]*");
    reveal_strlit("GcamViewfinder");
    reveal_strlit("Gecko");
    reveal_strlit("HadesLibPool*");
    reveal_strlit("HadesPool*");
    reveal_strlit("HeapTaskDaemon");
    reveal_strlit("HwBinder:*");
    reveal_strlit("IL2CPP*");
    reveal_strlit("IO*Thread*");
    reveal_strlit("IOThread*");
    reveal_strlit("IPC*");
    reveal_strlit("IPDL*");
    reveal_strlit("InputDispatcher");
    reveal_strlit("InsetsAnimation");
    reveal_strlit("JNISurfaceTextu");
    reveal_strlit("JavaBridge");
    reveal_strlit("Jit thread pool");
    reveal_strlit("Job.[Ww]orker*");
    reveal_strlit("JobThread*");
    reveal_strlit("Loading.*");
    reveal_strlit("LogAppendWork");
    reveal_strlit("LogicThread");
    reveal_strlit("Lynx_JS");
    reveal_strlit("MainThread");
    reveal_strlit("MainThread*");
    reveal_strlit("Mainloop");
    reveal_strlit("MediaCodec*");
    reveal_strlit("MiniRainbowMain");
    reveal_strlit("MiniRenderThrea");
    reveal_strlit("NativeThread*");
    reveal_strlit("NetworkService");
    reveal_strlit("OkHttp*");
    reveal_strlit("PakMergeThread");
    reveal_strlit("Phenix-Schedule");
    reveal_strlit("PoolThread*");
    reveal_strlit("RHIThread");
    reveal_strlit("RHIThread*");
    reveal_strlit("RenderEngine");
    reveal_strlit("RenderThread");
    reveal_strlit("RenderThread*");
    reveal_strlit("RenderingThread");
    reveal_strlit("RxCachedThreadS");
    reveal_strlit("ShaderCompiling");
    reveal_strlit("Shared_w*");
    reveal_strlit("Socket Thread");
    reveal_strlit("SoundDecoder*");
    reveal_strlit("SoundPool*");
    reveal_strlit("Task*");
    reveal_strlit("TaskGraph*");
    reveal_strlit("Thread-*");
    reveal_strlit("ThreadPool*");
    reveal_strlit("ThreadPoolForeg*");
    reveal_strlit("ThreadPoolServi*");
    reveal_strlit("ThumbnailStorag");
    reveal_strlit("UEGameThread");
    reveal_strlit("UnityChoreo*");
    reveal_strlit("UnityChoreograp*");
    reveal_strlit("UnityGfx*");
    reveal_strlit("UnityGfxDeviceW");
    reveal_strlit("UnityMain");
    reveal_strlit("UnityMultiRende*");
    reveal_strlit("UnityPreload");
    reveal_strlit("UnityPreload*");
    reveal_strlit("VCMainThread");
    reveal_strlit("VDecod*");
    reveal_strlit("VOutle*");
    reveal_strlit("VizCompositor");
    reveal_strlit("VizWebView");
    reveal_strlit("VulkanRenderMan");
    reveal_strlit("Web Content");
    reveal_strlit("Worker Thread");
    reveal_strlit("[Bb]inder:*");
    reveal_strlit("alsoft-mixer");
    reveal_strlit("arch_disk*");
    reveal_strlit("arch_disk_*");
    reveal_strlit("beacon-thread-*");
    reveal_strlit("binder:*");
    reveal_strlit("cached-pool-*");
    reveal_strlit("decodeQueue*");
    reveal_strlit("fileUploadQueue");
    reveal_strlit("files_database*");
    reveal_strlit("glide*");
    reveal_strlit("glide-*");
    reveal_strlit("hwui*");
    reveal_strlit("hwuiTask*");
    reveal_strlit("ijk_dash_pool_*");
    reveal_strlit("io.worker*");
    reveal_strlit("ledThreadPool-*");
    reveal_strlit("looper_monitor");
    reveal_strlit("main");
    reveal_strlit("mali-*");
    reveal_strlit("mpv/*");
    reveal_strlit("mqt_*");
    reveal_strlit("onPool-worker-*");
    reveal_strlit("pivotal-pool-*");
    reveal_strlit("pool-[0-9]*-thread*");
    reveal_strlit("rx-pool-*");
    reveal_strlit("searchQueue");
    reveal_strlit("stageQueue*");
    reveal_strlit("storageQueue*");
    reveal_strlit("vrpool-*");
    reveal_with_fuel(matches_from, 17);
    reveal_with_fuel(class_items_end, 4);
    reveal_with_fuel(class_items_hit, 4);
    assert(classify_spec(rs, "GC1Marker12"@) == CoreTarget::Little) by {
        let name = "GC1Marker12"@;
        assert(name.len() == 11);
        assert forall|j: int| 0 <= j < rs.len() && rs[j].priority == 100 implies #[trigger] rs[
            j
        ].pattern != name by {
            let p = rs[j].pattern;
            assert(p == name ==> p.len() == 11 && p[0] == name[0] && p[1] == name[1] && p[2] == name[2] && p[3] == name[3] && p[4] == name[4] && p[5] == name[5] && p[6] == name[6] && p[7] == name[7] && p[8] == name[8] && p[9] == name[9] && p[10] == name[10]);
        }
        assert forall|j: int| 0 <= j < 157 && rs[j].priority == 50 implies !glob_spec(
            #[trigger] rs[j].pattern,
            name,
        ) by {}
        assert(glob_spec(rs[157].pattern, name));
        lemma_wildcard_entry_wins(name, 157);
    }
}

/// A thread whose name begins with `BG` (in either case) goes to the little
/// cores (the entry `[Bb][Gg]*`), as this name shows:
/// `BGload` (`[Bb][Gg]*`).
#[verifier::spinoff_prover]
#[verifier::rlimit(100)]
pub proof fn law_background_thread_name()
    ensures
        classify_spec(builtin_rules(), "BGload"@) == CoreTarget::Little,
{
    let rs = builtin_rules();
    reveal_strlit("#pool-[0-9]*-thread*");
    reveal_strlit("*ColdPool*");
    reveal_strlit("*Dispatcher");
    reveal_strlit("*Event*");
    reveal_strlit("*HotPool*");
    reveal_strlit("*Loading*");
    reveal_strlit("*TaskQueue*");
    reveal_strlit("*ThreadPool*");
    reveal_strlit("*Worker*");
    reveal_strlit("*[Aa]nim*");
    reveal_strlit("*[Aa]udio*");
    reveal_strlit("*[Bb]ackStage*");
    reveal_strlit("*[Bb]inder*");
    reveal_strlit("*[Hh]ttp*");
    reveal_strlit("*[Pp]ool*");
    reveal_strlit("*worker*");
    reveal_strlit("1.raster");
    reveal_strlit("1.ui");
    reveal_strlit("2.ui");
    reveal_strlit("?.io");
    reveal_strlit("?.raster");
    reveal_strlit("?.ui");
    reveal_strlit("AILocalThread");
    reveal_strlit("AOutle*");
    reveal_strlit("APM_light-weigh");
    reveal_strlit("AndroidRender");
    reveal_strlit("AndroidUI");
    reveal_strlit("AnimationThread");
    reveal_strlit("Apollo-*");
    reveal_strlit("AsyncTask*");
    reveal_strlit("AudioThread");
    reveal_strlit("AudioTrack");
    reveal_strlit("BGload");
    reveal_strlit("Binder:*");
    reveal_strlit("CRI*");
    reveal_strlit("CallbackHndlr");
    reveal_strlit("Chrome_ChildIOT");
    reveal_strlit("Chrome_IOThread");
    reveal_strlit("Chrome_InProcGp");
    reveal_strlit("Chrome_InProcRe");
    reveal_strlit("ChromiumNet*");
    reveal_strlit("CodecLooper*");
    reveal_strlit("Compositor");
    reveal_strlit("Compute*");
    reveal_strlit("CoreThread");
    reveal_strlit("CrRendererMain");
    reveal_strlit("CriManaDecode*");
    reveal_strlit("DartWorker*");
    reveal_strlit("DefaultDispatch");
    reveal_strlit("DefaultExecutor");
    reveal_strlit("DispatchQueuePo");
    reveal_strlit("DownloadThreadP*");
    reveal_strlit("ExoPlayer:*");
    reveal_strlit("FAsyncLoading*");
    reveal_strlit("FMOD*");
    reveal_strlit("GC?Marker??");
    reveal_strlit("GLThread*");
    reveal_strlit("GPM-DataThread");
    reveal_strlit("GameThread");
    reveal_strlit("Game[0-9]*");
    reveal_strlit("GcamViewfinder");
    reveal_strlit("Gecko");
    reveal_strlit("HadesLibPool*");
    reveal_strlit("HadesPool*");
    reveal_strlit("HeapTaskDaemon");
    reveal_strlit("HwBinder:*");
    reveal_strlit("IL2CPP*");
    reveal_strlit("IO*Thread*");
    reveal_strlit("IOThread*");
    reveal_strlit("IPC*");
    reveal_strlit("IPDL*");
    reveal_strlit("InputDispatcher");
    reveal_strlit("InsetsAnimation");
    reveal_strlit("JNISurfaceTextu");
    reveal_strlit("JavaBridge");
    reveal_strlit("Jit thread pool");
    reveal_strlit("Job.[Ww]orker*");
    reveal_strlit("JobThread*");
    reveal_strlit("Loading.*");
    reveal_strlit("LogAppendWork");
    reveal_strlit("LogicThread");
    reveal_strlit("Lynx_JS");
    reveal_strlit("MainThread");
    reveal_strlit("MainThread*");
    reveal_strlit("Mainloop");
    reveal_strlit("MediaCodec*");
    reveal_strlit("MiniRainbowMain");
    reveal_strlit("MiniRenderThrea");
    reveal_strlit("NativeThread*");
    reveal_strlit("NetworkService");
    reveal_strlit("OkHttp*");
    reveal_strlit("PakMergeThread");
    reveal_strlit("Phenix-Schedule");
    reveal_strlit("PoolThread*");
    reveal_strlit("RHIThread");
    reveal_strlit("RHIThread*");
    reveal_strlit("RenderEngine");
    reveal_strlit("RenderThread");
    reveal_strlit("RenderThread*");
    reveal_strlit("RenderingThread");
    reveal_strlit("RxCachedThreadS");
    reveal_strlit("ShaderCompiling");
    reveal_strlit("Shared_w*");
    reveal_strlit("Socket Thread");
    reveal_strlit("SoundDecoder*");
    reveal_strlit("SoundPool*");
    reveal_strlit("Task*");
    reveal_strlit("TaskGraph*");
    reveal_strlit("Thread-*");
    reveal_strlit("ThreadPool*");
    reveal_strlit("ThreadPoolForeg*");
    reveal_strlit("ThreadPoolServi*");
    reveal_strlit("ThumbnailStorag");
    reveal_strlit("UEGameThread");
    reveal_strlit("UnityChoreo*");
    reveal_strlit("UnityChoreograp*");
    reveal_strlit("UnityGfx*");
    reveal_strlit("UnityGfxDeviceW");
    reveal_strlit("UnityMain");
    reveal_strlit("UnityMultiRende*");
    reveal_strlit("UnityPreload");
    reveal_strlit("UnityPreload*");
    reveal_strlit("VCMainThread");
    reveal_strlit("VDecod*");
    reveal_strlit("VOutle*");
    reveal_strlit("VizCompositor");
    reveal_strlit("VizWebView");
    reveal_strlit("VulkanRenderMan");
    reveal_strlit("Web Content");
    reveal_strlit("Worker Thread");
    reveal_strlit("[Bb][Gg]*");
    reveal_strlit("[Bb]inder:*");
    reveal_strlit("alsoft-mixer");
    reveal_strlit("arch_disk*");
    reveal_strlit("arch_disk_*");
    reveal_strlit("beacon-thread-*");
    reveal_strlit("binder:*");
    reveal_strlit("cached-pool-*");
    reveal_strlit("decodeQueue*");
    reveal_strlit("fileUploadQueue");
    reveal_strlit("files_database*");
    reveal_strlit("glide*");
    reveal_strlit("glide-*");
    reveal_strlit("hwui*");
    reveal_strlit("hwuiTask*");
    reveal_strlit("ijk_dash_pool_*");
    reveal_strlit("io.worker*");
    reveal_strlit("ledThreadPool-*");
    reveal_strlit("looper_monitor");
    reveal_strlit("main");
    reveal_strlit("mali-*");
    reveal_strlit("mpv/*");
    reveal_strlit("mqt_*");
    reveal_strlit("onPool-worker-*");
    reveal_strlit("pivotal-pool-*");
    reveal_strlit("pool-[0-9]*-thread*");
    reveal_strlit("rx-pool-*");
    reveal_strlit("searchQueue");
    reveal_strlit("stageQueue*");
    reveal_strlit("storageQueue*");
    reveal_strlit("vrpool-*");
    reveal_with_fuel(matches_from, 12);
    reveal_with_fuel(class_items_end, 4);
    reveal_with_fuel(class_items_hit, 4);
    assert(classify_spec(rs, "BGload"@) == CoreTarget::Little) by {
        let name = "BGload"@;
        assert(name.len() == 6);
        assert forall|j: int| 0 <= j < rs.len() && rs[j].priority == 100 implies #[trigger] rs[
            j
        ].pattern != name by {
            let p = rs[j].pattern;
            assert(p == name ==> p.len() == 6 && p[0] == name[0] && p[1] == name[1] && p[2] == name[2] && p[3] == name[3] && p[4] == name[4] && p[5] == name[5]);
        }
        assert forall|j: int| 0 <= j < 158 && rs[j].priority == 50 implies !glob_spec(
            #[trigger] rs[j].pattern,
            name,
        ) by {}
        assert(glob_spec(rs[158].pattern, name));
        lemma_wildcard_entry_wins(name, 158);
    }
}

/// An `IO-` thread goes to the little cores (the entry `IO-*`), as this name
/// shows:
/// `IO-1` (`IO-*`).
#[verifier::spinoff_prover]
#[verifier::rlimit(100)]
pub proof fn law_io_dash_thread_name()
    ensures
        classify_spec(builtin_rules(), "IO-1"@) == CoreTarget::Little,
{
    let rs = builtin_rules();
    reveal_strlit("#pool-[0-9]*-thread*");
    reveal_strlit("*ColdPool*");
    reveal_strlit("*Dispatcher");
    reveal_strlit("*Event*");
    reveal_strlit("*HotPool*");
    reveal_strlit("*Loading*");
    reveal_strlit("*TaskQueue*");
    reveal_strlit("*ThreadPool*");
    reveal_strlit("*Worker*");
    reveal_strlit("*[Aa]nim*");
    reveal_strlit("*[Aa]udio*");
    reveal_strlit("*[Bb]ackStage*");
    reveal_strlit("*[Bb]inder*");
    reveal_strlit("*[Hh]ttp*");
    reveal_strlit("*[Pp]ool*");
    reveal_strlit("*worker*");
    reveal_strlit("1.raster");
    reveal_strlit("1.ui");
    reveal_strlit("2.ui");
    reveal_strlit("?.io");
    reveal_strlit("?.raster");
    reveal_strlit("?.ui");
    reveal_strlit("AILocalThread");
    reveal_strlit("AOutle*");
    reveal_strlit("APM_light-weigh");
    reveal_strlit("AndroidRender");
    reveal_strlit("AndroidUI");
    reveal_strlit("AnimationThread");
    reveal_strlit("Apollo-*");
    reveal_strlit("AsyncTask*");
    reveal_strlit("AudioThread");
    reveal_strlit("AudioTrack");
    reveal_strlit("Binder:*");
    reveal_strlit("CRI*");
    reveal_strlit("CallbackHndlr");
    reveal_strlit("Chrome_ChildIOT");
    reveal_strlit("Chrome_IOThread");
    reveal_strlit("Chrome_InProcGp");
    reveal_strlit("Chrome_InProcRe");
    reveal_strlit("ChromiumNet*");
    reveal_strlit("CodecLooper*");
    reveal_strlit("Compositor");
    reveal_strlit("Compute*");
    reveal_strlit("CoreThread");
    reveal_strlit("CrRendererMain");
    reveal_strlit("CriManaDecode*");
    reveal_strlit("DartWorker*");
    reveal_strlit("DefaultDispatch");
    reveal_strlit("DefaultExecutor");
    reveal_strlit("DispatchQueuePo");
    reveal_strlit("DownloadThreadP*");
    reveal_strlit("ExoPlayer:*");
    reveal_strlit("FAsyncLoading*");
    reveal_strlit("FMOD*");
    reveal_strlit("GC?Marker??");
    reveal_strlit("GLThread*");
    reveal_strlit("GPM-DataThread");
    reveal_strlit("GameThread");
    reveal_strlit("Game[0-9]*");
    reveal_strlit("GcamViewfinder");
    reveal_strlit("Gecko");
    reveal_strlit("HadesLibPool*");
    reveal_strlit("HadesPool*");
    reveal_strlit("HeapTaskDaemon");
    reveal_strlit("HwBinder:*");
    reveal_strlit("IL2CPP*");
    reveal_strlit("IO*Thread*");
    reveal_strlit("IO-*");
    reveal_strlit("IO-1");
    reveal_strlit("IOThread*");
    reveal_strlit("IPC*");
    reveal_strlit("IPDL*");
    reveal_strlit("InputDispatcher");
    reveal_strlit("InsetsAnimation");
    reveal_strlit("JNISurfaceTextu");
    reveal_strlit("JavaBridge");
    reveal_strlit("Jit thread pool");
    reveal_strlit("Job.[Ww]orker*");
    reveal_strlit("JobThread*");
    reveal_strlit("Loading.*");
    reveal_strlit("LogAppendWork");
    reveal_strlit("LogicThread");
    reveal_strlit("Lynx_JS");
    reveal_strlit("MainThread");
    reveal_strlit("MainThread*");
    reveal_strlit("Mainloop");
    reveal_strlit("MediaCodec*");
    reveal_strlit("MiniRainbowMain");
    reveal_strlit("MiniRenderThrea");
    reveal_strlit("NativeThread*");
    reveal_strlit("NetworkService");
    reveal_strlit("OkHttp*");
    reveal_strlit("PakMergeThread");
    reveal_strlit("Phenix-Schedule");
    reveal_strlit("PoolThread*");
    reveal_strlit("RHIThread");
    reveal_strlit("RHIThread*");
    reveal_strlit("RenderEngine");
    reveal_strlit("RenderThread");
    reveal_strlit("RenderThread*");
    reveal_strlit("RenderingThread");
    reveal_strlit("RxCachedThreadS");
    reveal_strlit("ShaderCompiling");
    reveal_strlit("Shared_w*");
    reveal_strlit("Socket Thread");
    reveal_strlit("SoundDecoder*");
    reveal_strlit("SoundPool*");
    reveal_strlit("Task*");
    reveal_strlit("TaskGraph*");
    reveal_strlit("Thread-*");
    reveal_strlit("ThreadPool*");
    reveal_strlit("ThreadPoolForeg*");
    reveal_strlit("ThreadPoolServi*");
    reveal_strlit("ThumbnailStorag");
    reveal_strlit("UEGameThread");
    reveal_strlit("UnityChoreo*");
    reveal_strlit("UnityChoreograp*");
    reveal_strlit("UnityGfx*");
    reveal_strlit("UnityGfxDeviceW");
    reveal_strlit("UnityMain");
    reveal_strlit("UnityMultiRende*");
    reveal_strlit("UnityPreload");
    reveal_strlit("UnityPreload*");
    reveal_strlit("VCMainThread");
    reveal_strlit("VDecod*");
    reveal_strlit("VOutle*");
    reveal_strlit("VizCompositor");
    reveal_strlit("VizWebView");
    reveal_strlit("VulkanRenderMan");
    reveal_strlit("Web Content");
    reveal_strlit("Worker Thread");
    reveal_strlit("[Bb][Gg]*");
    reveal_strlit("[Bb]inder:*");
    reveal_strlit("alsoft-mixer");
    reveal_strlit("arch_disk*");
    reveal_strlit("arch_disk_*");
    reveal_strlit("beacon-thread-*");
    reveal_strlit("binder:*");
    reveal_strlit("cached-pool-*");
    reveal_strlit("decodeQueue*");
    reveal_strlit("fileUploadQueue");
    reveal_strlit("files_database*");
    reveal_strlit("glide*");
    reveal_strlit("glide-*");
    reveal_strlit("hwui*");
    reveal_strlit("hwuiTask*");
    reveal_strlit("ijk_dash_pool_*");
    reveal_strlit("io.worker*");
    reveal_strlit("ledThreadPool-*");
    reveal_strlit("looper_monitor");
    reveal_strlit("main");
    reveal_strlit("mali-*");
    reveal_strlit("mpv/*");
    reveal_strlit("mqt_*");
    reveal_strlit("onPool-worker-*");
    reveal_strlit("pivotal-pool-*");
    reveal_strlit("pool-[0-9]*-thread*");
    reveal_strlit("rx-pool-*");
    reveal_strlit("searchQueue");
    reveal_strlit("stageQueue*");
    reveal_strlit("storageQueue*");
    reveal_strlit("vrpool-*");
    reveal_with_fuel(matches_from, 10);
    reveal_with_fuel(class_items_end, 4);
    reveal_with_fuel(class_items_hit, 4);
    assert(classify_spec(rs, "IO-1"@) == CoreTarget::Little) by {
        let name = "IO-1"@;
        assert(name.len() == 4);
        assert forall|j: int| 0 <= j < rs.len() && rs[j].priority == 100 implies #[trigger] rs[
            j
        ].pattern != name by {
            let p = rs[j].pattern;
            assert(p == name ==> p.len() == 4 && p[0] == name[0] && p[1] == name[1] && p[2] == name[2] && p[3] == name[3]);
        }
        assert forall|j: int| 0 <= j < 160 && rs[j].priority == 50 implies !glob_spec(
            #[trigger] rs[j].pattern,
            name,
        ) by {}
        assert(glob_spec(rs[160].pattern, name));
        lemma_wildcard_entry_wins(name, 160);
    }
}

/// A thread whose name holds `backStage` or `BackStage` and that nothing
/// more specific claims goes to the big cores, as this name shows:
/// `BackStage` (`*[Bb]ackStage*`).
#[verifier::spinoff_prover]
#[verifier::rlimit(100)]
pub proof fn law_back_stage_word_thread_name()
    ensures
        classify_spec(builtin_rules(), "BackStage"@) == CoreTarget::Big,
{
    let rs = builtin_rules();
    reveal_strlit("#pool-[0-9]*-thread*");
    reveal_strlit("*ColdPool*");
    reveal_strlit("*Dispatcher");
    reveal_strlit("*Event*");
    reveal_strlit("*HotPool*");
    reveal_strlit("*Loading*");
    reveal_strlit("*TaskQueue*");
    reveal_strlit("*ThreadPool*");
    reveal_strlit("*Worker*");
    reveal_strlit("*[Aa]nim*");
    reveal_strlit("*[Aa]udio*");
    reveal_strlit("*[Bb]ackStage*");
    reveal_strlit("*[Bb]inder*");
    reveal_strlit("*[Hh]ttp*");
    reveal_strlit("*[Pp]ool*");
    reveal_strlit("*worker*");
    reveal_strlit("1.raster");
    reveal_strlit("1.ui");
    reveal_strlit("2.ui");
    reveal_strlit("?.io");
    reveal_strlit("?.raster");
    reveal_strlit("?.ui");
    reveal_strlit("AILocalThread");
    reveal_strlit("AOutle*");
    reveal_strlit("APM_light-weigh");
    reveal_strlit("AndroidRender");
    reveal_strlit("AndroidUI");
    reveal_strlit("AnimationThread");
    reveal_strlit("Apollo-*");
    reveal_strlit("AsyncTask*");
    reveal_strlit("AudioThread");
    reveal_strlit("AudioTrack");
    reveal_strlit("BackStage");
    reveal_strlit("Binder:*");
    reveal_strlit("CRI*");
    reveal_strlit("CallbackHndlr");
    reveal_strlit("Chrome_ChildIOT");
    reveal_strlit("Chrome_IOThread");
    reveal_strlit("Chrome_InProcGp");
    reveal_strlit("Chrome_InProcRe");
    reveal_strlit("ChromiumNet*");
    reveal_strlit("CodecLooper*");
    reveal_strlit("Compositor");
    reveal_strlit("Compute*");
    reveal_strlit("CoreThread");
    reveal_strlit("CrRendererMain");
    reveal_strlit("CriManaDecode*");
    reveal_strlit("DartWorker*");
    reveal_strlit("DefaultDispatch");
    reveal_strlit("DefaultExecutor");
    reveal_strlit("DispatchQueuePo");
    reveal_strlit("DownloadThreadP*");
    reveal_strlit("ExoPlayer:*");
    reveal_strlit("FAsyncLoading*");
    reveal_strlit("FMOD*");
    reveal_strlit("GC?Marker??");
    reveal_strlit("GLThread*");
    reveal_strlit("GPM-DataThread");
    reveal_strlit("GameThread");
    reveal_strlit("Game[0-9]*");
    reveal_strlit("GcamViewfinder");
    reveal_strlit("Gecko");
    reveal_strlit("HadesLibPool*");
    reveal_strlit("HadesPool*");
    reveal_strlit("HeapTaskDaemon");
    reveal_strlit("HwBinder:*");
    reveal_strlit("IL2CPP*");
    reveal_strlit("IO*Thread*");
    reveal_strlit("IO-*");
    reveal_strlit("IOThread*");
    reveal_strlit("IPC*");
    reveal_strlit("IPDL*");
    reveal_strlit("InputDispatcher");
    reveal_strlit("InsetsAnimation");
    reveal_strlit("JNISurfaceTextu");
    reveal_strlit("JavaBridge");
    reveal_strlit("Jit thread pool");
    reveal_strlit("Job.[Ww]orker*");
    reveal_strlit("JobThread*");
    reveal_strlit("Loading.*");
    reveal_strlit("LogAppendWork");
    reveal_strlit("LogicThread");
    reveal_strlit("Lynx_JS");
    reveal_strlit("MainThread");
    reveal_strlit("MainThread*");
    reveal_strlit("Mainloop");
    reveal_strlit("MediaCodec*");
    reveal_strlit("MiniRainbowMain");
    reveal_strlit("MiniRenderThrea");
    reveal_strlit("NativeThread*");
    reveal_strlit("NetworkService");
    reveal_strlit("OkHttp*");
    reveal_strlit("PakMergeThread");
    reveal_strlit("Phenix-Schedule");
    reveal_strlit("PoolThread*");
    reveal_strlit("RHIThread");
    reveal_strlit("RHIThread*");
    reveal_strlit("RenderEngine");
    reveal_strlit("RenderThread");
    reveal_strlit("RenderThread*");
    reveal_strlit("RenderingThread");
    reveal_strlit("RxCachedThreadS");
    reveal_strlit("ShaderCompiling");
    reveal_strlit("Shared_w*");
    reveal_strlit("Socket Thread");
    reveal_strlit("SoundDecoder*");
    reveal_strlit("SoundPool*");
    reveal_strlit("Task*");
    reveal_strlit("TaskGraph*");
    reveal_strlit("Thread-*");
    reveal_strlit("ThreadPool*");
    reveal_strlit("ThreadPoolForeg*");
    reveal_strlit("ThreadPoolServi*");
    reveal_strlit("ThumbnailStorag");
    reveal_strlit("UEGameThread");
    reveal_strlit("UnityChoreo*");
    reveal_strlit("UnityChoreograp*");
    reveal_strlit("UnityGfx*");
    reveal_strlit("UnityGfxDeviceW");
    reveal_strlit("UnityMain");
    reveal_strlit("UnityMultiRende*");
    reveal_strlit("UnityPreload");
    reveal_strlit("UnityPreload*");
    reveal_strlit("VCMainThread");
    reveal_strlit("VDecod*");
    reveal_strlit("VOutle*");
    reveal_strlit("VizCompositor");
    reveal_strlit("VizWebView");
    reveal_strlit("VulkanRenderMan");
    reveal_strlit("Web Content");
    reveal_strlit("Worker Thread");
    reveal_strlit("[Bb][Gg]*");
    reveal_strlit("[Bb]inder:*");
    reveal_strlit("alsoft-mixer");
    reveal_strlit("arch_disk*");
    reveal_strlit("arch_disk_*");
    reveal_strlit("beacon-thread-*");
    reveal_strlit("binder:*");
    reveal_strlit("cached-pool-*");
    reveal_strlit("decodeQueue*");
    reveal_strlit("fileUploadQueue");
    reveal_strlit("files_database*");
    reveal_strlit("glide*");
    reveal_strlit("glide-*");
    reveal_strlit("hwui*");
    reveal_strlit("hwuiTask*");
    reveal_strlit("ijk_dash_pool_*");
    reveal_strlit("io.worker*");
    reveal_strlit("ledThreadPool-*");
    reveal_strlit("looper_monitor");
    reveal_strlit("main");
    reveal_strlit("mali-*");
    reveal_strlit("mpv/*");
    reveal_strlit("mqt_*");
    reveal_strlit("onPool-worker-*");
    reveal_strlit("pivotal-pool-*");
    reveal_strlit("pool-[0-9]*-thread*");
    reveal_strlit("rx-pool-*");
    reveal_strlit("searchQueue");
    reveal_strlit("stageQueue*");
    reveal_strlit("storageQueue*");
    reveal_strlit("vrpool-*");
    reveal_with_fuel(matches_from, 15);
    reveal_with_fuel(class_items_end, 4);
    reveal_with_fuel(class_items_hit, 4);
    assert(classify_spec(rs, "BackStage"@) == CoreTarget::Big) by {
        let name = "BackStage"@;
        assert(name.len() == 9);
        assert forall|j: int| 0 <= j < rs.len() && rs[j].priority == 100 implies #[trigger] rs[
            j
        ].pattern != name by {
            let p = rs[j].pattern;
            assert(p == name ==> p.len() == 9 && p[0] == name[0] && p[1] == name[1] && p[2] == name[2] && p[3] == name[3] && p[4] == name[4] && p[5] == name[5] && p[6] == name[6] && p[7] == name[7] && p[8] == name[8]);
        }
        assert forall|j: int| 0 <= j < rs.len() && rs[j].priority == 50 implies !glob_spec(
            #[trigger] rs[j].pattern,
            name,
        ) by {}
        assert forall|j: int| 0 <= j < 76 && rs[j].priority == 20 implies !glob_spec(
            #[trigger] rs[j].pattern,
            name,
        ) by {}
        assert(glob_spec(rs[76].pattern, name));
        lemma_broad_entry_wins(name, 76);
    }
}

/// A thread whose name holds `worker` and that nothing more specific claims
/// goes to the big cores, as this name shows:
/// `worker` (`*worker*`).
#[verifier::spinoff_prover]
#[verifier::rlimit(100)]
pub proof fn law_lower_worker_word_thread_name()
    ensures
        classify_spec(builtin_rules(), "worker"@) == CoreTarget::Big,
{
    let rs = builtin_rules();
    reveal_strlit("#pool-[0-9]*-thread*");
    reveal_strlit("*ColdPool*");
    reveal_strlit("*Dispatcher");
    reveal_strlit("*Event*");
    reveal_strlit("*HotPool*");
    reveal_strlit("*Loading*");
    reveal_strlit("*TaskQueue*");
    reveal_strlit("*ThreadPool*");
    reveal_strlit("*Worker*");
    reveal_strlit("*[Aa]nim*");
    reveal_strlit("*[Aa]udio*");
    reveal_strlit("*[Bb]ackStage*");
    reveal_strlit("*[Bb]inder*");
    reveal_strlit("*[Hh]ttp*");
    reveal_strlit("*[Pp]ool*");
    reveal_strlit("*worker*");
    reveal_strlit("1.raster");
    reveal_strlit("1.ui");
    reveal_strlit("2.ui");
    reveal_strlit("?.io");
    reveal_strlit("?.raster");
    reveal_strlit("?.ui");
    reveal_strlit("AILocalThread");
    reveal_strlit("AOutle*");
    reveal_strlit("APM_light-weigh");
    reveal_strlit("AndroidRender");
    reveal_strlit("AndroidUI");
    reveal_strlit("AnimationThread");
    reveal_strlit("Apollo-*");
    reveal_strlit("AsyncTask*");
    reveal_strlit("AudioThread");
    reveal_strlit("AudioTrack");
    reveal_strlit("Binder:*");
    reveal_strlit("CRI*");
    reveal_strlit("CallbackHndlr");
    reveal_strlit("Chrome_ChildIOT");
    reveal_strlit("Chrome_IOThread");
    reveal_strlit("Chrome_InProcGp");
    reveal_strlit("Chrome_InProcRe");
    reveal_strlit("ChromiumNet*");
    reveal_strlit("CodecLooper*");
    reveal_strlit("Compositor");
    reveal_strlit("Compute*");
    reveal_strlit("CoreThread");
    reveal_strlit("CrRendererMain");
    reveal_strlit("CriManaDecode*");
    reveal_strlit("DartWorker*");
    reveal_strlit("DefaultDispatch");
    reveal_strlit("DefaultExecutor");
    reveal_strlit("DispatchQueuePo");
    reveal_strlit("DownloadThreadP*");
    reveal_strlit("ExoPlayer:*");
    reveal_strlit("FAsyncLoading*");
    reveal_strlit("FMOD*");
    reveal_strlit("GC?Marker??");
    reveal_strlit("GLThread*");
    reveal_strlit("GPM-DataThread");
    reveal_strlit("GameThread");
    reveal_strlit("Game[0-9]*");
    reveal_strlit("GcamViewfinder");
    reveal_strlit("Gecko");
    reveal_strlit("HadesLibPool*");
    reveal_strlit("HadesPool*");
    reveal_strlit("HeapTaskDaemon");
    reveal_strlit("HwBinder:*");
    reveal_strlit("IL2CPP*");
    reveal_strlit("IO*Thread*");
    reveal_strlit("IO-*");
    reveal_strlit("IOThread*");
    reveal_strlit("IPC*");
    reveal_strlit("IPDL*");
    reveal_strlit("InputDispatcher");
    reveal_strlit("InsetsAnimation");
    reveal_strlit("JNISurfaceTextu");
    reveal_strlit("JavaBridge");
    reveal_strlit("Jit thread pool");
    reveal_strlit("Job.[Ww]orker*");
    reveal_strlit("JobThread*");
    reveal_strlit("Loading.*");
    reveal_strlit("LogAppendWork");
    reveal_strlit("LogicThread");
    reveal_strlit("Lynx_JS");
    reveal_strlit("MainThread");
    reveal_strlit("MainThread*");
    reveal_strlit("Mainloop");
    reveal_strlit("MediaCodec*");
    reveal_strlit("MiniRainbowMain");
    reveal_strlit("MiniRenderThrea");
    reveal_strlit("NativeThread*");
    reveal_strlit("NetworkService");
    reveal_strlit("OkHttp*");
    reveal_strlit("PakMergeThread");
    reveal_strlit("Phenix-Schedule");
    reveal_strlit("PoolThread*");
    reveal_strlit("RHIThread");
    reveal_strlit("RHIThread*");
    reveal_strlit("RenderEngine");
    reveal_strlit("RenderThread");
    reveal_strlit("RenderThread*");
    reveal_strlit("RenderingThread");
    reveal_strlit("RxCachedThreadS");
    reveal_strlit("ShaderCompiling");
    reveal_strlit("Shared_w*");
    reveal_strlit("Socket Thread");
    reveal_strlit("SoundDecoder*");
    reveal_strlit("SoundPool*");
    reveal_strlit("Task*");
    reveal_strlit("TaskGraph*");
    reveal_strlit("Thread-*");
    reveal_strlit("ThreadPool*");
    reveal_strlit("ThreadPoolForeg*");
    reveal_strlit("ThreadPoolServi*");
    reveal_strlit("ThumbnailStorag");
    reveal_strlit("UEGameThread");
    reveal_strlit("UnityChoreo*");
    reveal_strlit("UnityChoreograp*");
    reveal_strlit("UnityGfx*");
    reveal_strlit("UnityGfxDeviceW");
    reveal_strlit("UnityMain");
    reveal_strlit("UnityMultiRende*");
    reveal_strlit("UnityPreload");
    reveal_strlit("UnityPreload*");
    reveal_strlit("VCMainThread");
    reveal_strlit("VDecod*");
    reveal_strlit("VOutle*");
    reveal_strlit("VizCompositor");
    reveal_strlit("VizWebView");
    reveal_strlit("VulkanRenderMan");
    reveal_strlit("Web Content");
    reveal_strlit("Worker Thread");
    reveal_strlit("[Bb][Gg]*");
    reveal_strlit("[Bb]inder:*");
    reveal_strlit("alsoft-mixer");
    reveal_strlit("arch_disk*");
    reveal_strlit("arch_disk_*");
    reveal_strlit("beacon-thread-*");
    reveal_strlit("binder:*");
    reveal_strlit("cached-pool-*");
    reveal_strlit("decodeQueue*");
    reveal_strlit("fileUploadQueue");
    reveal_strlit("files_database*");
    reveal_strlit("glide*");
    reveal_strlit("glide-*");
    reveal_strlit("hwui*");
    reveal_strlit("hwuiTask*");
    reveal_strlit("ijk_dash_pool_*");
    reveal_strlit("io.worker*");
    reveal_strlit("ledThreadPool-*");
    reveal_strlit("looper_monitor");
    reveal_strlit("main");
    reveal_strlit("mali-*");
    reveal_strlit("mpv/*");
    reveal_strlit("mqt_*");
    reveal_strlit("onPool-worker-*");
    reveal_strlit("pivotal-pool-*");
    reveal_strlit("pool-[0-9]*-thread*");
    reveal_strlit("rx-pool-*");
    reveal_strlit("searchQueue");
    reveal_strlit("stageQueue*");
    reveal_strlit("storageQueue*");
    reveal_strlit("vrpool-*");
    reveal_strlit("worker");
    reveal_with_fuel(matches_from, 12);
    reveal_with_fuel(class_items_end, 4);
    reveal_with_fuel(class_items_hit, 4);
    assert(classify_spec(rs, "worker"@) == CoreTarget::Big) by {
        let name = "worker"@;
        assert(name.len() == 6);
        assert forall|j: int| 0 <= j < rs.len() && rs[j].priority == 100 implies #[trigger] rs[
            j
        ].pattern != name by {
            let p = rs[j].pattern;
            assert(p == name ==> p.len() == 6 && p[0] == name[0] && p[1] == name[1] && p[2] == name[2] && p[3] == name[3] && p[4] == name[4] && p[5] == name[5]);
        }
        assert forall|j: int| 0 <= j < rs.len() && rs[j].priority == 50 implies !glob_spec(
            #[trigger] rs[j].pattern,
            name,
        ) by {}
        assert forall|j: int| 0 <= j < 80 && rs[j].priority == 20 implies !glob_spec(
            #[trigger] rs[j].pattern,
            name,
        ) by {}
        assert(glob_spec(rs[80].pattern, name));
        lemma_broad_entry_wins(name, 80);
    }
}

/// A thread whose name holds `Worker` and that nothing more specific claims
/// goes to the big cores, as this name shows:
/// `Worker` (`*Worker*`).
#[verifier::spinoff_prover]
#[verifier::rlimit(100)]
pub proof fn law_upper_worker_word_thread_name()
    ensures
        classify_spec(builtin_rules(), "Worker"@) == CoreTarget::Big,
{
    let rs = builtin_rules();
    reveal_strlit("#pool-[0-9]*-thread*");
    reveal_strlit("*ColdPool*");
    reveal_strlit("*Dispatcher");
    reveal_strlit("*Event*");
    reveal_strlit("*HotPool*");
    reveal_strlit("*Loading*");
    reveal_strlit("*TaskQueue*");
    reveal_strlit("*ThreadPool*");
    reveal_strlit("*Worker*");
    reveal_strlit("*[Aa]nim*");
    reveal_strlit("*[Aa]udio*");
    reveal_strlit("*[Bb]ackStage*");
    reveal_strlit("*[Bb]inder*");
    reveal_strlit("*[Hh]ttp*");
    reveal_strlit("*[Pp]ool*");
    reveal_strlit("*worker*");
    reveal_strlit("1.raster");
    reveal_strlit("1.ui");
    reveal_strlit("2.ui");
    reveal_strlit("?.io");
    reveal_strlit("?.raster");
    reveal_strlit("?.ui");
    reveal_strlit("AILocalThread");
    reveal_strlit("AOutle*");
    reveal_strlit("APM_light-weigh");
    reveal_strlit("AndroidRender");
    reveal_strlit("AndroidUI");
    reveal_strlit("AnimationThread");
    reveal_strlit("Apollo-*");
    reveal_strlit("AsyncTask*");
    reveal_strlit("AudioThread");
    reveal_strlit("AudioTrack");
    reveal_strlit("Binder:*");
    reveal_strlit("CRI*");
    reveal_strlit("CallbackHndlr");
    reveal_strlit("Chrome_ChildIOT");
    reveal_strlit("Chrome_IOThread");
    reveal_strlit("Chrome_InProcGp");
    reveal_strlit("Chrome_InProcRe");
    reveal_strlit("ChromiumNet*");
    reveal_strlit("CodecLooper*");
    reveal_strlit("Compositor");
    reveal_strlit("Compute*");
    reveal_strlit("CoreThread");
    reveal_strlit("CrRendererMain");
    reveal_strlit("CriManaDecode*");
    reveal_strlit("DartWorker*");
    reveal_strlit("DefaultDispatch");
    reveal_strlit("DefaultExecutor");
    reveal_strlit("DispatchQueuePo");
    reveal_strlit("DownloadThreadP*");
    reveal_strlit("ExoPlayer:*");
    reveal_strlit("FAsyncLoading*");
    reveal_strlit("FMOD*");
    reveal_strlit("GC?Marker??");
    reveal_strlit("GLThread*");
    reveal_strlit("GPM-DataThread");
    reveal_strlit("GameThread");
    reveal_strlit("Game[0-9]*");
    reveal_strlit("GcamViewfinder");
    reveal_strlit("Gecko");
    reveal_strlit("HadesLibPool*");
    reveal_strlit("HadesPool*");
    reveal_strlit("HeapTaskDaemon");
    reveal_strlit("HwBinder:*");
    reveal_strlit("IL2CPP*");
    reveal_strlit("IO*Thread*");
    reveal_strlit("IO-*");
    reveal_strlit("IOThread*");
    reveal_strlit("IPC*");
    reveal_strlit("IPDL*");
    reveal_strlit("InputDispatcher");
    reveal_strlit("InsetsAnimation");
    reveal_strlit("JNISurfaceTextu");
    reveal_strlit("JavaBridge");
    reveal_strlit("Jit thread pool");
    reveal_strlit("Job.[Ww]orker*");
    reveal_strlit("JobThread*");
    reveal_strlit("Loading.*");
    reveal_strlit("LogAppendWork");
    reveal_strlit("LogicThread");
    reveal_strlit("Lynx_JS");
    reveal_strlit("MainThread");
    reveal_strlit("MainThread*");
    reveal_strlit("Mainloop");
    reveal_strlit("MediaCodec*");
    reveal_strlit("MiniRainbowMain");
    reveal_strlit("MiniRenderThrea");
    reveal_strlit("NativeThread*");
    reveal_strlit("NetworkService");
    reveal_strlit("OkHttp*");
    reveal_strlit("PakMergeThread");
    reveal_strlit("Phenix-Schedule");
    reveal_strlit("PoolThread*");
    reveal_strlit("RHIThread");
    reveal_strlit("RHIThread*");
    reveal_strlit("RenderEngine");
    reveal_strlit("RenderThread");
    reveal_strlit("RenderThread*");
    reveal_strlit("RenderingThread");
    reveal_strlit("RxCachedThreadS");
    reveal_strlit("ShaderCompiling");
    reveal_strlit("Shared_w*");
    reveal_strlit("Socket Thread");
    reveal_strlit("SoundDecoder*");
    reveal_strlit("SoundPool*");
    reveal_strlit("Task*");
    reveal_strlit("TaskGraph*");
    reveal_strlit("Thread-*");
    reveal_strlit("ThreadPool*");
    reveal_strlit("ThreadPoolForeg*");
    reveal_strlit("ThreadPoolServi*");
    reveal_strlit("ThumbnailStorag");
    reveal_strlit("UEGameThread");
    reveal_strlit("UnityChoreo*");
    reveal_strlit("UnityChoreograp*");
    reveal_strlit("UnityGfx*");
    reveal_strlit("UnityGfxDeviceW");
    reveal_strlit("UnityMain");
    reveal_strlit("UnityMultiRende*");
    reveal_strlit("UnityPreload");
    reveal_strlit("UnityPreload*");
    reveal_strlit("VCMainThread");
    reveal_strlit("VDecod*");
    reveal_strlit("VOutle*");
    reveal_strlit("VizCompositor");
    reveal_strlit("VizWebView");
    reveal_strlit("VulkanRenderMan");
    reveal_strlit("Web Content");
    reveal_strlit("Worker");
    reveal_strlit("Worker Thread");
    reveal_strlit("[Bb][Gg]*");
    reveal_strlit("[Bb]inder:*");
    reveal_strlit("alsoft-mixer");
    reveal_strlit("arch_disk*");
    reveal_strlit("arch_disk_*");
    reveal_strlit("beacon-thread-*");
    reveal_strlit("binder:*");
    reveal_strlit("cached-pool-*");
    reveal_strlit("decodeQueue*");
    reveal_strlit("fileUploadQueue");
    reveal_strlit("files_database*");
    reveal_strlit("glide*");
    reveal_strlit("glide-*");
    reveal_strlit("hwui*");
    reveal_strlit("hwuiTask*");
    reveal_strlit("ijk_dash_pool_*");
    reveal_strlit("io.worker*");
    reveal_strlit("ledThreadPool-*");
    reveal_strlit("looper_monitor");
    reveal_strlit("main");
    reveal_strlit("mali-*");
    reveal_strlit("mpv/*");
    reveal_strlit("mqt_*");
    reveal_strlit("onPool-worker-*");
    reveal_strlit("pivotal-pool-*");
    reveal_strlit("pool-[0-9]*-thread*");
    reveal_strlit("rx-pool-*");
    reveal_strlit("searchQueue");
    reveal_strlit("stageQueue*");
    reveal_strlit("storageQueue*");
    reveal_strlit("vrpool-*");
    reveal_with_fuel(matches_from, 12);
    reveal_with_fuel(class_items_end, 4);
    reveal_with_fuel(class_items_hit, 4);
    assert(classify_spec(rs, "Worker"@) == CoreTarget::Big) by {
        let name = "Worker"@;
        assert(name.len() == 6);
        assert forall|j: int| 0 <= j < rs.len() && rs[j].priority == 100 implies #[trigger] rs[
            j
        ].pattern != name by {
            let p = rs[j].pattern;
            assert(p == name ==> p.len() == 6 && p[0] == name[0] && p[1] == name[1] && p[2] == name[2] && p[3] == name[3] && p[4] == name[4] && p[5] == name[5]);
        }
        assert forall|j: int| 0 <= j < rs.len() && rs[j].priority == 50 implies !glob_spec(
            #[trigger] rs[j].pattern,
            name,
        ) by {}
        assert forall|j: int| 0 <= j < 81 && rs[j].priority == 20 implies !glob_spec(
            #[trigger] rs[j].pattern,
            name,
        ) by {}
        assert(glob_spec(rs[81].pattern, name));
        lemma_broad_entry_wins(name, 81);
    }
}

/// A thread whose name holds `binder` or `Binder` and that nothing more
/// specific claims goes to the big cores, as this name shows:
/// `binder` (`*[Bb]inder*`).
#[verifier::spinoff_prover]
#[verifier::rlimit(100)]
pub proof fn law_binder_word_thread_name()
    ensures
        classify_spec(builtin_rules(), "binder"@) == CoreTarget::Big,
{
    let rs = builtin_rules();
    reveal_strlit("#pool-[0-9]*-thread*");
    reveal_strlit("*ColdPool*");
    reveal_strlit("*Dispatcher");
    reveal_strlit("*Event*");
    reveal_strlit("*HotPool*");
    reveal_strlit("*Loading*");
    reveal_strlit("*TaskQueue*");
    reveal_strlit("*ThreadPool*");
    reveal_strlit("*Worker*");
    reveal_strlit("*[Aa]nim*");
    reveal_strlit("*[Aa]udio*");
    reveal_strlit("*[Bb]ackStage*");
    reveal_strlit("*[Bb]inder*");
    reveal_strlit("*[Hh]ttp*");
    reveal_strlit("*[Pp]ool*");
    reveal_strlit("*worker*");
    reveal_strlit("1.raster");
    reveal_strlit("1.ui");
    reveal_strlit("2.ui");
    reveal_strlit("?.io");
    reveal_strlit("?.raster");
    reveal_strlit("?.ui");
    reveal_strlit("AILocalThread");
    reveal_strlit("AOutle*");
    reveal_strlit("APM_light-weigh");
    reveal_strlit("AndroidRender");
    reveal_strlit("AndroidUI");
    reveal_strlit("AnimationThread");
    reveal_strlit("Apollo-*");
    reveal_strlit("AsyncTask*");
    reveal_strlit("AudioThread");
    reveal_strlit("AudioTrack");
    reveal_strlit("Binder:*");
    reveal_strlit("CRI*");
    reveal_strlit("CallbackHndlr");
    reveal_strlit("Chrome_ChildIOT");
    reveal_strlit("Chrome_IOThread");
    reveal_strlit("Chrome_InProcGp");
    reveal_strlit("Chrome_InProcRe");
    reveal_strlit("ChromiumNet*");
    reveal_strlit("CodecLooper*");
    reveal_strlit("Compositor");
    reveal_strlit("Compute*");
    reveal_strlit("CoreThread");
    reveal_strlit("CrRendererMain");
    reveal_strlit("CriManaDecode*");
    reveal_strlit("DartWorker*");
    reveal_strlit("DefaultDispatch");
    reveal_strlit("DefaultExecutor");
    reveal_strlit("DispatchQueuePo");
    reveal_strlit("DownloadThreadP*");
    reveal_strlit("ExoPlayer:*");
    reveal_strlit("FAsyncLoading*");
    reveal_strlit("FMOD*");
    reveal_strlit("GC?Marker??");
    reveal_strlit("GLThread*");
    reveal_strlit("GPM-DataThread");
    reveal_strlit("GameThread");
    reveal_strlit("Game[0-9]*");
    reveal_strlit("GcamViewfinder");
    reveal_strlit("Gecko");
    reveal_strlit("HadesLibPool*");
    reveal_strlit("HadesPool*");
    reveal_strlit("HeapTaskDaemon");
    reveal_strlit("HwBinder:*");
    reveal_strlit("IL2CPP*");
    reveal_strlit("IO*Thread*");
    reveal_strlit("IO-*");
    reveal_strlit("IOThread*");
    reveal_strlit("IPC*");
    reveal_strlit("IPDL*");
    reveal_strlit("InputDispatcher");
    reveal_strlit("InsetsAnimation");
    reveal_strlit("JNISurfaceTextu");
    reveal_strlit("JavaBridge");
    reveal_strlit("Jit thread pool");
    reveal_strlit("Job.[Ww]orker*");
    reveal_strlit("JobThread*");
    reveal_strlit("Loading.*");
    reveal_strlit("LogAppendWork");
    reveal_strlit("LogicThread");
    reveal_strlit("Lynx_JS");
    reveal_strlit("MainThread");
    reveal_strlit("MainThread*");
    reveal_strlit("Mainloop");
    reveal_strlit("MediaCodec*");
    reveal_strlit("MiniRainbowMain");
    reveal_strlit("MiniRenderThrea");
    reveal_strlit("NativeThread*");
    reveal_strlit("NetworkService");
    reveal_strlit("OkHttp*");
    reveal_strlit("PakMergeThread");
    reveal_strlit("Phenix-Schedule");
    reveal_strlit("PoolThread*");
    reveal_strlit("RHIThread");
    reveal_strlit("RHIThread*");
    reveal_strlit("RenderEngine");
    reveal_strlit("RenderThread");
    reveal_strlit("RenderThread*");
    reveal_strlit("RenderingThread");
    reveal_strlit("RxCachedThreadS");
    reveal_strlit("ShaderCompiling");
    reveal_strlit("Shared_w*");
    reveal_strlit("Socket Thread");
    reveal_strlit("SoundDecoder*");
    reveal_strlit("SoundPool*");
    reveal_strlit("Task*");
    reveal_strlit("TaskGraph*");
    reveal_strlit("Thread-*");
    reveal_strlit("ThreadPool*");
    reveal_strlit("ThreadPoolForeg*");
    reveal_strlit("ThreadPoolServi*");
    reveal_strlit("ThumbnailStorag");
    reveal_strlit("UEGameThread");
    reveal_strlit("UnityChoreo*");
    reveal_strlit("UnityChoreograp*");
    reveal_strlit("UnityGfx*");
    reveal_strlit("UnityGfxDeviceW");
    reveal_strlit("UnityMain");
    reveal_strlit("UnityMultiRende*");
    reveal_strlit("UnityPreload");
    reveal_strlit("UnityPreload*");
    reveal_strlit("VCMainThread");
    reveal_strlit("VDecod*");
    reveal_strlit("VOutle*");
    reveal_strlit("VizCompositor");
    reveal_strlit("VizWebView");
    reveal_strlit("VulkanRenderMan");
    reveal_strlit("Web Content");
    reveal_strlit("Worker Thread");
    reveal_strlit("[Bb][Gg]*");
    reveal_strlit("[Bb]inder:*");
    reveal_strlit("alsoft-mixer");
    reveal_strlit("arch_disk*");
    reveal_strlit("arch_disk_*");
    reveal_strlit("beacon-thread-*");
    reveal_strlit("binder");
    reveal_strlit("binder:*");
    reveal_strlit("cached-pool-*");
    reveal_strlit("decodeQueue*");
    reveal_strlit("fileUploadQueue");
    reveal_strlit("files_database*");
    reveal_strlit("glide*");
    reveal_strlit("glide-*");
    reveal_strlit("hwui*");
    reveal_strlit("hwuiTask*");
    reveal_strlit("ijk_dash_pool_*");
    reveal_strlit("io.worker*");
    reveal_strlit("ledThreadPool-*");
    reveal_strlit("looper_monitor");
    reveal_strlit("main");
    reveal_strlit("mali-*");
    reveal_strlit("mpv/*");
    reveal_strlit("mqt_*");
    reveal_strlit("onPool-worker-*");
    reveal_strlit("pivotal-pool-*");
    reveal_strlit("pool-[0-9]*-thread*");
    reveal_strlit("rx-pool-*");
    reveal_strlit("searchQueue");
    reveal_strlit("stageQueue*");
    reveal_strlit("storageQueue*");
    reveal_strlit("vrpool-*");
    reveal_with_fuel(matches_from, 12);
    reveal_with_fuel(class_items_end, 4);
    reveal_with_fuel(class_items_hit, 4);
    assert(classify_spec(rs, "binder"@) == CoreTarget::Big) by {
        let name = "binder"@;
        assert(name.len() == 6);
        assert forall|j: int| 0 <= j < rs.len() && rs[j].priority == 100 implies #[trigger] rs[
            j
        ].pattern != name by {
            let p = rs[j].pattern;
            assert(p == name ==> p.len() == 6 && p[0] == name[0] && p[1] == name[1] && p[2] == name[2] && p[3] == name[3] && p[4] == name[4] && p[5] == name[5]);
        }
        assert forall|j: int| 0 <= j < rs.len() && rs[j].priority == 50 implies !glob_spec(
            #[trigger] rs[j].pattern,
            name,
        ) by {}
        assert forall|j: int| 0 <= j < 96 && rs[j].priority == 20 implies !glob_spec(
            #[trigger] rs[j].pattern,
            name,
        ) by {}
        assert(glob_spec(rs[96].pattern, name));
        lemma_broad_entry_wins(name, 96);
    }
}

/// A thread whose name holds `http` or `Http` and that nothing more specific
/// claims goes to the big cores, as this name shows:
/// `http` (`*[Hh]ttp*`).
#[verifier::spinoff_prover]
#[verifier::rlimit(100)]
pub proof fn law_http_word_thread_name()
    ensures
        classify_spec(builtin_rules(), "http"@) == CoreTarget::Big,
{
    let rs = builtin_rules();
    reveal_strlit("#pool-[0-9]*-thread*");
    reveal_strlit("*ColdPool*");
    reveal_strlit("*Dispatcher");
    reveal_strlit("*Event*");
    reveal_strlit("*HotPool*");
    reveal_strlit("*Loading*");
    reveal_strlit("*TaskQueue*");
    reveal_strlit("*ThreadPool*");
    reveal_strlit("*Worker*");
    reveal_strlit("*[Aa]nim*");
    reveal_strlit("*[Aa]udio*");
    reveal_strlit("*[Bb]ackStage*");
    reveal_strlit("*[Bb]inder*");
    reveal_strlit("*[Hh]ttp*");
    reveal_strlit("*[Pp]ool*");
    reveal_strlit("*worker*");
    reveal_strlit("1.raster");
    reveal_strlit("1.ui");
    reveal_strlit("2.ui");
    reveal_strlit("?.io");
    reveal_strlit("?.raster");
    reveal_strlit("?.ui");
    reveal_strlit("AILocalThread");
    reveal_strlit("AOutle*");
    reveal_strlit("APM_light-weigh");
    reveal_strlit("AndroidRender");
    reveal_strlit("AndroidUI");
    reveal_strlit("AnimationThread");
    reveal_strlit("Apollo-*");
    reveal_strlit("AsyncTask*");
    reveal_strlit("AudioThread");
    reveal_strlit("AudioTrack");
    reveal_strlit("Binder:*");
    reveal_strlit("CRI*");
    reveal_strlit("CallbackHndlr");
    reveal_strlit("Chrome_ChildIOT");
    reveal_strlit("Chrome_IOThread");
    reveal_strlit("Chrome_InProcGp");
    reveal_strlit("Chrome_InProcRe");
    reveal_strlit("ChromiumNet*");
    reveal_strlit("CodecLooper*");
    reveal_strlit("Compositor");
    reveal_strlit("Compute*");
    reveal_strlit("CoreThread");
    reveal_strlit("CrRendererMain");
    reveal_strlit("CriManaDecode*");
    reveal_strlit("DartWorker*");
    reveal_strlit("DefaultDispatch");
    reveal_strlit("DefaultExecutor");
    reveal_strlit("DispatchQueuePo");
    reveal_strlit("DownloadThreadP*");
    reveal_strlit("ExoPlayer:*");
    reveal_strlit("FAsyncLoading*");
    reveal_strlit("FMOD*");
    reveal_strlit("GC?Marker??");
    reveal_strlit("GLThread*");
    reveal_strlit("GPM-DataThread");
    reveal_strlit("GameThread");
    reveal_strlit("Game[0-9]*");
    reveal_strlit("GcamViewfinder");
    reveal_strlit("Gecko");
    reveal_strlit("HadesLibPool*");
    reveal_strlit("HadesPool*");
    reveal_strlit("HeapTaskDaemon");
    reveal_strlit("HwBinder:*");
    reveal_strlit("IL2CPP*");
    reveal_strlit("IO*Thread*");
    reveal_strlit("IO-*");
    reveal_strlit("IOThread*");
    reveal_strlit("IPC*");
    reveal_strlit("IPDL*");
    reveal_strlit("InputDispatcher");
    reveal_strlit("InsetsAnimation");
    reveal_strlit("JNISurfaceTextu");
    reveal_strlit("JavaBridge");
    reveal_strlit("Jit thread pool");
    reveal_strlit("Job.[Ww]orker*");
    reveal_strlit("JobThread*");
    reveal_strlit("Loading.*");
    reveal_strlit("LogAppendWork");
    reveal_strlit("LogicThread");
    reveal_strlit("Lynx_JS");
    reveal_strlit("MainThread");
    reveal_strlit("MainThread*");
    reveal_strlit("Mainloop");
    reveal_strlit("MediaCodec*");
    reveal_strlit("MiniRainbowMain");
    reveal_strlit("MiniRenderThrea");
    reveal_strlit("NativeThread*");
    reveal_strlit("NetworkService");
    reveal_strlit("OkHttp*");
    reveal_strlit("PakMergeThread");
    reveal_strlit("Phenix-Schedule");
    reveal_strlit("PoolThread*");
    reveal_strlit("RHIThread");
    reveal_strlit("RHIThread*");
    reveal_strlit("RenderEngine");
    reveal_strlit("RenderThread");
    reveal_strlit("RenderThread*");
    reveal_strlit("RenderingThread");
    reveal_strlit("RxCachedThreadS");
    reveal_strlit("ShaderCompiling");
    reveal_strlit("Shared_w*");
    reveal_strlit("Socket Thread");
    reveal_strlit("SoundDecoder*");
    reveal_strlit("SoundPool*");
    reveal_strlit("Task*");
    reveal_strlit("TaskGraph*");
    reveal_strlit("Thread-*");
    reveal_strlit("ThreadPool*");
    reveal_strlit("ThreadPoolForeg*");
    reveal_strlit("ThreadPoolServi*");
    reveal_strlit("ThumbnailStorag");
    reveal_strlit("UEGameThread");
    reveal_strlit("UnityChoreo*");
    reveal_strlit("UnityChoreograp*");
    reveal_strlit("UnityGfx*");
    reveal_strlit("UnityGfxDeviceW");
    reveal_strlit("UnityMain");
    reveal_strlit("UnityMultiRende*");
    reveal_strlit("UnityPreload");
    reveal_strlit("UnityPreload*");
    reveal_strlit("VCMainThread");
    reveal_strlit("VDecod*");
    reveal_strlit("VOutle*");
    reveal_strlit("VizCompositor");
    reveal_strlit("VizWebView");
    reveal_strlit("VulkanRenderMan");
    reveal_strlit("Web Content");
    reveal_strlit("Worker Thread");
    reveal_strlit("[Bb][Gg]*");
    reveal_strlit("[Bb]inder:*");
    reveal_strlit("alsoft-mixer");
    reveal_strlit("arch_disk*");
    reveal_strlit("arch_disk_*");
    reveal_strlit("beacon-thread-*");
    reveal_strlit("binder:*");
    reveal_strlit("cached-pool-*");
    reveal_strlit("decodeQueue*");
    reveal_strlit("fileUploadQueue");
    reveal_strlit("files_database*");
    reveal_strlit("glide*");
    reveal_strlit("glide-*");
    reveal_strlit("http");
    reveal_strlit("hwui*");
    reveal_strlit("hwuiTask*");
    reveal_strlit("ijk_dash_pool_*");
    reveal_strlit("io.worker*");
    reveal_strlit("ledThreadPool-*");
    reveal_strlit("looper_monitor");
    reveal_strlit("main");
    reveal_strlit("mali-*");
    reveal_strlit("mpv/*");
    reveal_strlit("mqt_*");
    reveal_strlit("onPool-worker-*");
    reveal_strlit("pivotal-pool-*");
    reveal_strlit("pool-[0-9]*-thread*");
    reveal_strlit("rx-pool-*");
    reveal_strlit("searchQueue");
    reveal_strlit("stageQueue*");
    reveal_strlit("storageQueue*");
    reveal_strlit("vrpool-*");
    reveal_with_fuel(matches_from, 10);
    reveal_with_fuel(class_items_end, 4);
    reveal_with_fuel(class_items_hit, 4);
    assert(classify_spec(rs, "http"@) == CoreTarget::Big) by {
        let name = "http"@;
        assert(name.len() == 4);
        assert forall|j: int| 0 <= j < rs.len() && rs[j].priority == 100 implies #[trigger] rs[
            j
        ].pattern != name by {
            let p = rs[j].pattern;
            assert(p == name ==> p.len() == 4 && p[0] == name[0] && p[1] == name[1] && p[2] == name[2] && p[3] == name[3]);
        }
        assert forall|j: int| 0 <= j < rs.len() && rs[j].priority == 50 implies !glob_spec(
            #[trigger] rs[j].pattern,
            name,
        ) by {}
        assert forall|j: int| 0 <= j < 98 && rs[j].priority == 20 implies !glob_spec(
            #[trigger] rs[j].pattern,
            name,
        ) by {}
        assert(glob_spec(rs[98].pattern, name));
        lemma_broad_entry_wins(name, 98);
    }
}

/// A thread whose name holds `Event` and that nothing more specific claims
/// goes to the big cores, as this name shows:
/// `Event` (`*Event*`).
#[verifier::spinoff_prover]
#[verifier::rlimit(100)]
pub proof fn law_event_word_thread_name()
    ensures
        classify_spec(builtin_rules(), "Event"@) == CoreTarget::Big,
{
    let rs = builtin_rules();
    reveal_strlit("#pool-[0-9]*-thread*");
    reveal_strlit("*ColdPool*");
    reveal_strlit("*Dispatcher");
    reveal_strlit("*Event*");
    reveal_strlit("*HotPool*");
    reveal_strlit("*Loading*");
    reveal_strlit("*TaskQueue*");
    reveal_strlit("*ThreadPool*");
    reveal_strlit("*Worker*");
    reveal_strlit("*[Aa]nim*");
    reveal_strlit("*[Aa]udio*");
    reveal_strlit("*[Bb]ackStage*");
    reveal_strlit("*[Bb]inder*");
    reveal_strlit("*[Hh]ttp*");
    reveal_strlit("*[Pp]ool*");
    reveal_strlit("*worker*");
    reveal_strlit("1.raster");
    reveal_strlit("1.ui");
    reveal_strlit("2.ui");
    reveal_strlit("?.io");
    reveal_strlit("?.raster");
    reveal_strlit("?.ui");
    reveal_strlit("AILocalThread");
    reveal_strlit("AOutle*");
    reveal_strlit("APM_light-weigh");
    reveal_strlit("AndroidRender");
    reveal_strlit("AndroidUI");
    reveal_strlit("AnimationThread");
    reveal_strlit("Apollo-*");
    reveal_strlit("AsyncTask*");
    reveal_strlit("AudioThread");
    reveal_strlit("AudioTrack");
    reveal_strlit("Binder:*");
    reveal_strlit("CRI*");
    reveal_strlit("CallbackHndlr");
    reveal_strlit("Chrome_ChildIOT");
    reveal_strlit("Chrome_IOThread");
    reveal_strlit("Chrome_InProcGp");
    reveal_strlit("Chrome_InProcRe");
    reveal_strlit("ChromiumNet*");
    reveal_strlit("CodecLooper*");
    reveal_strlit("Compositor");
    reveal_strlit("Compute*");
    reveal_strlit("CoreThread");
    reveal_strlit("CrRendererMain");
    reveal_strlit("CriManaDecode*");
    reveal_strlit("DartWorker*");
    reveal_strlit("DefaultDispatch");
    reveal_strlit("DefaultExecutor");
    reveal_strlit("DispatchQueuePo");
    reveal_strlit("DownloadThreadP*");
    reveal_strlit("Event");
    reveal_strlit("ExoPlayer:*");
    reveal_strlit("FAsyncLoading*");
    reveal_strlit("FMOD*");
    reveal_strlit("GC?Marker??");
    reveal_strlit("GLThread*");
    reveal_strlit("GPM-DataThread");
    reveal_strlit("GameThread");
    reveal_strlit("Game[0-9]*");
    reveal_strlit("GcamViewfinder");
    reveal_strlit("Gecko");
    reveal_strlit("HadesLibPool*");
    reveal_strlit("HadesPool*");
    reveal_strlit("HeapTaskDaemon");
    reveal_strlit("HwBinder:*");
    reveal_strlit("IL2CPP*");
    reveal_strlit("IO*Thread*");
    reveal_strlit("IO-*");
    reveal_strlit("IOThread*");
    reveal_strlit("IPC*");
    reveal_strlit("IPDL*");
    reveal_strlit("InputDispatcher");
    reveal_strlit("InsetsAnimation");
    reveal_strlit("JNISurfaceTextu");
    reveal_strlit("JavaBridge");
    reveal_strlit("Jit thread pool");
    reveal_strlit("Job.[Ww]orker*");
    reveal_strlit("JobThread*");
    reveal_strlit("Loading.*");
    reveal_strlit("LogAppendWork");
    reveal_strlit("LogicThread");
    reveal_strlit("Lynx_JS");
    reveal_strlit("MainThread");
    reveal_strlit("MainThread*");
    reveal_strlit("Mainloop");
    reveal_strlit("MediaCodec*");
    reveal_strlit("MiniRainbowMain");
    reveal_strlit("MiniRenderThrea");
    reveal_strlit("NativeThread*");
    reveal_strlit("NetworkService");
    reveal_strlit("OkHttp*");
    reveal_strlit("PakMergeThread");
    reveal_strlit("Phenix-Schedule");
    reveal_strlit("PoolThread*");
    reveal_strlit("RHIThread");
    reveal_strlit("RHIThread*");
    reveal_strlit("RenderEngine");
    reveal_strlit("RenderThread");
    reveal_strlit("RenderThread*");
    reveal_strlit("RenderingThread");
    reveal_strlit("RxCachedThreadS");
    reveal_strlit("ShaderCompiling");
    reveal_strlit("Shared_w*");
    reveal_strlit("Socket Thread");
    reveal_strlit("SoundDecoder*");
    reveal_strlit("SoundPool*");
    reveal_strlit("Task*");
    reveal_strlit("TaskGraph*");
    reveal_strlit("Thread-*");
    reveal_strlit("ThreadPool*");
    reveal_strlit("ThreadPoolForeg*");
    reveal_strlit("ThreadPoolServi*");
    reveal_strlit("ThumbnailStorag");
    reveal_strlit("UEGameThread");
    reveal_strlit("UnityChoreo*");
    reveal_strlit("UnityChoreograp*");
    reveal_strlit("UnityGfx*");
    reveal_strlit("UnityGfxDeviceW");
    reveal_strlit("UnityMain");
    reveal_strlit("UnityMultiRende*");
    reveal_strlit("UnityPreload");
    reveal_strlit("UnityPreload*");
    reveal_strlit("VCMainThread");
    reveal_strlit("VDecod*");
    reveal_strlit("VOutle*");
    reveal_strlit("VizCompositor");
    reveal_strlit("VizWebView");
    reveal_strlit("VulkanRenderMan");
    reveal_strlit("Web Content");
    reveal_strlit("Worker Thread");
    reveal_strlit("[Bb][Gg]*");
    reveal_strlit("[Bb]inder:*");
    reveal_strlit("alsoft-mixer");
    reveal_strlit("arch_disk*");
    reveal_strlit("arch_disk_*");
    reveal_strlit("beacon-thread-*");
    reveal_strlit("binder:*");
    reveal_strlit("cached-pool-*");
    reveal_strlit("decodeQueue*");
    reveal_strlit("fileUploadQueue");
    reveal_strlit("files_database*");
    reveal_strlit("glide*");
    reveal_strlit("glide-*");
    reveal_strlit("hwui*");
    reveal_strlit("hwuiTask*");
    reveal_strlit("ijk_dash_pool_*");
    reveal_strlit("io.worker*");
    reveal_strlit("ledThreadPool-*");
    reveal_strlit("looper_monitor");
    reveal_strlit("main");
    reveal_strlit("mali-*");
    reveal_strlit("mpv/*");
    reveal_strlit("mqt_*");
    reveal_strlit("onPool-worker-*");
    reveal_strlit("pivotal-pool-*");
    reveal_strlit("pool-[0-9]*-thread*");
    reveal_strlit("rx-pool-*");
    reveal_strlit("searchQueue");
    reveal_strlit("stageQueue*");
    reveal_strlit("storageQueue*");
    reveal_strlit("vrpool-*");
    reveal_with_fuel(matches_from, 11);
    reveal_with_fuel(class_items_end, 4);
    reveal_with_fuel(class_items_hit, 4);
    assert(classify_spec(rs, "Event"@) == CoreTarget::Big) by {
        let name = "Event"@;
        assert(name.len() == 5);
        assert forall|j: int| 0 <= j < rs.len() && rs[j].priority == 100 implies #[trigger] rs[
            j
        ].pattern != name by {
            let p = rs[j].pattern;
            assert(p == name ==> p.len() == 5 && p[0] == name[0] && p[1] == name[1] && p[2] == name[2] && p[3] == name[3] && p[4] == name[4]);
        }
        assert forall|j: int| 0 <= j < rs.len() && rs[j].priority == 50 implies !glob_spec(
            #[trigger] rs[j].pattern,
            name,
        ) by {}
        assert forall|j: int| 0 <= j < 110 && rs[j].priority == 20 implies !glob_spec(
            #[trigger] rs[j].pattern,
            name,
        ) by {}
        assert(glob_spec(rs[110].pattern, name));
        lemma_broad_entry_wins(name, 110);
    }
}

/// A thread whose name holds `TaskQueue` and that nothing more specific
/// claims goes to the big cores, as this name shows:
/// `MyTaskQueue` (`*TaskQueue*`).
#[verifier::spinoff_prover]
#[verifier::rlimit(100)]
pub proof fn law_task_queue_word_thread_name()
    ensures
        classify_spec(builtin_rules(), "MyTaskQueue"@) == CoreTarget::Big,
{
    let rs = builtin_rules();
    reveal_strlit("#pool-[0-9]*-thread*");
    reveal_strlit("*ColdPool*");
    reveal_strlit("*Dispatcher");
    reveal_strlit("*Event*");
    reveal_strlit("*HotPool*");
    reveal_strlit("*Loading*");
    reveal_strlit("*TaskQueue*");
    reveal_strlit("*ThreadPool*");
    reveal_strlit("*Worker*");
    reveal_strlit("*[Aa]nim*");
    reveal_strlit("*[Aa]udio*");
    reveal_strlit("*[Bb]ackStage*");
    reveal_strlit("*[Bb]inder*");
    reveal_strlit("*[Hh]ttp*");
    reveal_strlit("*[Pp]ool*");
    reveal_strlit("*worker*");
    reveal_strlit("1.raster");
    reveal_strlit("1.ui");
    reveal_strlit("2.ui");
    reveal_strlit("?.io");
    reveal_strlit("?.raster");
    reveal_strlit("?.ui");
    reveal_strlit("AILocalThread");
    reveal_strlit("AOutle*");
    reveal_strlit("APM_light-weigh");
    reveal_strlit("AndroidRender");
    reveal_strlit("AndroidUI");
    reveal_strlit("AnimationThread");
    reveal_strlit("Apollo-*");
    reveal_strlit("AsyncTask*");
    reveal_strlit("AudioThread");
    reveal_strlit("AudioTrack");
    reveal_strlit("Binder:*");
    reveal_strlit("CRI*");
    reveal_strlit("CallbackHndlr");
    reveal_strlit("Chrome_ChildIOT");
    reveal_strlit("Chrome_IOThread");
    reveal_strlit("Chrome_InProcGp");
    reveal_strlit("Chrome_InProcRe");
    reveal_strlit("ChromiumNet*");
    reveal_strlit("CodecLooper*");
    reveal_strlit("Compositor");
    reveal_strlit("Compute*");
    reveal_strlit("CoreThread");
    reveal_strlit("CrRendererMain");
    reveal_strlit("CriManaDecode*");
    reveal_strlit("DartWorker*");
    reveal_strlit("DefaultDispatch");
    reveal_strlit("DefaultExecutor");
    reveal_strlit("DispatchQueuePo");
    reveal_strlit("DownloadThreadP*");
    reveal_strlit("ExoPlayer:*");
    reveal_strlit("FAsyncLoading*");
    reveal_strlit("FMOD*");
    reveal_strlit("GC?Marker??");
    reveal_strlit("GLThread*");
    reveal_strlit("GPM-DataThread");
    reveal_strlit("GameThread");
    reveal_strlit("Game[0-9]*");
    reveal_strlit("GcamViewfinder");
    reveal_strlit("Gecko");
    reveal_strlit("HadesLibPool*");
    reveal_strlit("HadesPool*");
    reveal_strlit("HeapTaskDaemon");
    reveal_strlit("HwBinder:*");
    reveal_strlit("IL2CPP*");
    reveal_strlit("IO*Thread*");
    reveal_strlit("IO-*");
    reveal_strlit("IOThread*");
    reveal_strlit("IPC*");
    reveal_strlit("IPDL*");
    reveal_strlit("InputDispatcher");
    reveal_strlit("InsetsAnimation");
    reveal_strlit("JNISurfaceTextu");
    reveal_strlit("JavaBridge");
    reveal_strlit("Jit thread pool");
    reveal_strlit("Job.[Ww]orker*");
    reveal_strlit("JobThread*");
    reveal_strlit("Loading.*");
    reveal_strlit("LogAppendWork");
    reveal_strlit("LogicThread");
    reveal_strlit("Lynx_JS");
    reveal_strlit("MainThread");
    reveal_strlit("MainThread*");
    reveal_strlit("Mainloop");
    reveal_strlit("MediaCodec*");
    reveal_strlit("MiniRainbowMain");
    reveal_strlit("MiniRenderThrea");
    reveal_strlit("MyTaskQueue");
    reveal_strlit("NativeThread*");
    reveal_strlit("NetworkService");
    reveal_strlit("OkHttp*");
    reveal_strlit("PakMergeThread");
    reveal_strlit("Phenix-Schedule");
    reveal_strlit("PoolThread*");
    reveal_strlit("RHIThread");
    reveal_strlit("RHIThread*");
    reveal_strlit("RenderEngine");
    reveal_strlit("RenderThread");
    reveal_strlit("RenderThread*");
    reveal_strlit("RenderingThread");
    reveal_strlit("RxCachedThreadS");
    reveal_strlit("ShaderCompiling");
    reveal_strlit("Shared_w*");
    reveal_strlit("Socket Thread");
    reveal_strlit("SoundDecoder*");
    reveal_strlit("SoundPool*");
    reveal_strlit("Task*");
    reveal_strlit("TaskGraph*");
    reveal_strlit("Thread-*");
    reveal_strlit("ThreadPool*");
    reveal_strlit("ThreadPoolForeg*");
    reveal_strlit("ThreadPoolServi*");
    reveal_strlit("ThumbnailStorag");
    reveal_strlit("UEGameThread");
    reveal_strlit("UnityChoreo*");
    reveal_strlit("UnityChoreograp*");
    reveal_strlit("UnityGfx*");
    reveal_strlit("UnityGfxDeviceW");
    reveal_strlit("UnityMain");
    reveal_strlit("UnityMultiRende*");
    reveal_strlit("UnityPreload");
    reveal_strlit("UnityPreload*");
    reveal_strlit("VCMainThread");
    reveal_strlit("VDecod*");
    reveal_strlit("VOutle*");
    reveal_strlit("VizCompositor");
    reveal_strlit("VizWebView");
    reveal_strlit("VulkanRenderMan");
    reveal_strlit("Web Content");
    reveal_strlit("Worker Thread");
    reveal_strlit("[Bb][Gg]*");
    reveal_strlit("[Bb]inder:*");
    reveal_strlit("alsoft-mixer");
    reveal_strlit("arch_disk*");
    reveal_strlit("arch_disk_*");
    reveal_strlit("beacon-thread-*");
    reveal_strlit("binder:*");
    reveal_strlit("cached-pool-*");
    reveal_strlit("decodeQueue*");
    reveal_strlit("fileUploadQueue");
    reveal_strlit("files_database*");
    reveal_strlit("glide*");
    reveal_strlit("glide-*");
    reveal_strlit("hwui*");
    reveal_strlit("hwuiTask*");
    reveal_strlit("ijk_dash_pool_*");
    reveal_strlit("io.worker*");
    reveal_strlit("ledThreadPool-*");
    reveal_strlit("looper_monitor");
    reveal_strlit("main");
    reveal_strlit("mali-*");
    reveal_strlit("mpv/*");
    reveal_strlit("mqt_*");
    reveal_strlit("onPool-worker-*");
    reveal_strlit("pivotal-pool-*");
    reveal_strlit("pool-[0-9]*-thread*");
    reveal_strlit("rx-pool-*");
    reveal_strlit("searchQueue");
    reveal_strlit("stageQueue*");
    reveal_strlit("storageQueue*");
    reveal_strlit("vrpool-*");
    reveal_with_fuel(matches_from, 17);
    reveal_with_fuel(class_items_end, 4);
    reveal_with_fuel(class_items_hit, 4);
    assert(classify_spec(rs, "MyTaskQueue"@) == CoreTarget::Big) by {
        let name = "MyTaskQueue"@;
        assert(name.len() == 11);
        assert forall|j: int| 0 <= j < rs.len() && rs[j].priority == 100 implies #[trigger] rs[
            j
        ].pattern != name by {
            let p = rs[j].pattern;
            assert(p == name ==> p.len() == 11 && p[0] == name[0] && p[1] == name[1] && p[2] == name[2] && p[3] == name[3] && p[4] == name[4] && p[5] == name[5] && p[6] == name[6] && p[7] == name[7] && p[8] == name[8] && p[9] == name[9] && p[10] == name[10]);
        }
        assert forall|j: int| 0 <= j < rs.len() && rs[j].priority == 50 implies !glob_spec(
            #[trigger] rs[j].pattern,
            name,
        ) by {}
        assert forall|j: int| 0 <= j < 111 && rs[j].priority == 20 implies !glob_spec(
            #[trigger] rs[j].pattern,
            name,
        ) by {}
        assert(glob_spec(rs[111].pattern, name));
        lemma_broad_entry_wins(name, 111);
    }
}

/// A thread whose name holds `Loading` and that nothing more specific claims
/// goes to the little and big cores, as this name shows:
/// `Loading` (`*Loading*`).
#[verifier::spinoff_prover]
#[verifier::rlimit(100)]
pub proof fn law_loading_word_thread_name()
    ensures
        classify_spec(builtin_rules(), "Loading"@) == CoreTarget::LittleAndBig,
{
    let rs = builtin_rules();
    reveal_strlit("#pool-[0-9]*-thread*");
    reveal_strlit("*ColdPool*");
    reveal_strlit("*Dispatcher");
    reveal_strlit("*Event*");
    reveal_strlit("*HotPool*");
    reveal_strlit("*Loading*");
    reveal_strlit("*TaskQueue*");
    reveal_strlit("*ThreadPool*");
    reveal_strlit("*Worker*");
    reveal_strlit("*[Aa]nim*");
    reveal_strlit("*[Aa]udio*");
    reveal_strlit("*[Bb]ackStage*");
    reveal_strlit("*[Bb]inder*");
    reveal_strlit("*[Hh]ttp*");
    reveal_strlit("*[Pp]ool*");
    reveal_strlit("*worker*");
    reveal_strlit("1.raster");
    reveal_strlit("1.ui");
    reveal_strlit("2.ui");
    reveal_strlit("?.io");
    reveal_strlit("?.raster");
    reveal_strlit("?.ui");
    reveal_strlit("AILocalThread");
    reveal_strlit("AOutle*");
    reveal_strlit("APM_light-weigh");
    reveal_strlit("AndroidRender");
    reveal_strlit("AndroidUI");
    reveal_strlit("AnimationThread");
    reveal_strlit("Apollo-*");
    reveal_strlit("AsyncTask*");
    reveal_strlit("AudioThread");
    reveal_strlit("AudioTrack");
    reveal_strlit("Binder:*");
    reveal_strlit("CRI*");
    reveal_strlit("CallbackHndlr");
    reveal_strlit("Chrome_ChildIOT");
    reveal_strlit("Chrome_IOThread");
    reveal_strlit("Chrome_InProcGp");
    reveal_strlit("Chrome_InProcRe");
    reveal_strlit("ChromiumNet*");
    reveal_strlit("CodecLooper*");
    reveal_strlit("Compositor");
    reveal_strlit("Compute*");
    reveal_strlit("CoreThread");
    reveal_strlit("CrRendererMain");
    reveal_strlit("CriManaDecode*");
    reveal_strlit("DartWorker*");
    reveal_strlit("DefaultDispatch");
    reveal_strlit("DefaultExecutor");
    reveal_strlit("DispatchQueuePo");
    reveal_strlit("DownloadThreadP*");
    reveal_strlit("ExoPlayer:*");
    reveal_strlit("FAsyncLoading*");
    reveal_strlit("FMOD*");
    reveal_strlit("GC?Marker??");
    reveal_strlit("GLThread*");
    reveal_strlit("GPM-DataThread");
    reveal_strlit("GameThread");
    reveal_strlit("Game[0-9]*");
    reveal_strlit("GcamViewfinder");
    reveal_strlit("Gecko");
    reveal_strlit("HadesLibPool*");
    reveal_strlit("HadesPool*");
    reveal_strlit("HeapTaskDaemon");
    reveal_strlit("HwBinder:*");
    reveal_strlit("IL2CPP*");
    reveal_strlit("IO*Thread*");
    reveal_strlit("IO-*");
    reveal_strlit("IOThread*");
    reveal_strlit("IPC*");
    reveal_strlit("IPDL*");
    reveal_strlit("InputDispatcher");
    reveal_strlit("InsetsAnimation");
    reveal_strlit("JNISurfaceTextu");
    reveal_strlit("JavaBridge");
    reveal_strlit("Jit thread pool");
    reveal_strlit("Job.[Ww]orker*");
    reveal_strlit("JobThread*");
    reveal_strlit("Loading");
    reveal_strlit("Loading.*");
    reveal_strlit("LogAppendWork");
    reveal_strlit("LogicThread");
    reveal_strlit("Lynx_JS");
    reveal_strlit("MainThread");
    reveal_strlit("MainThread*");
    reveal_strlit("Mainloop");
    reveal_strlit("MediaCodec*");
    reveal_strlit("MiniRainbowMain");
    reveal_strlit("MiniRenderThrea");
    reveal_strlit("NativeThread*");
    reveal_strlit("NetworkService");
    reveal_strlit("OkHttp*");
    reveal_strlit("PakMergeThread");
    reveal_strlit("Phenix-Schedule");
    reveal_strlit("PoolThread*");
    reveal_strlit("RHIThread");
    reveal_strlit("RHIThread*");
    reveal_strlit("RenderEngine");
    reveal_strlit("RenderThread");
    reveal_strlit("RenderThread*");
    reveal_strlit("RenderingThread");
    reveal_strlit("RxCachedThreadS");
    reveal_strlit("ShaderCompiling");
    reveal_strlit("Shared_w*");
    reveal_strlit("Socket Thread");
    reveal_strlit("SoundDecoder*");
    reveal_strlit("SoundPool*");
    reveal_strlit("Task*");
    reveal_strlit("TaskGraph*");
    reveal_strlit("Thread-*");
    reveal_strlit("ThreadPool*");
    reveal_strlit("ThreadPoolForeg*");
    reveal_strlit("ThreadPoolServi*");
    reveal_strlit("ThumbnailStorag");
    reveal_strlit("UEGameThread");
    reveal_strlit("UnityChoreo*");
    reveal_strlit("UnityChoreograp*");
    reveal_strlit("UnityGfx*");
    reveal_strlit("UnityGfxDeviceW");
    reveal_strlit("UnityMain");
    reveal_strlit("UnityMultiRende*");
    reveal_strlit("UnityPreload");
    reveal_strlit("UnityPreload*");
    reveal_strlit("VCMainThread");
    reveal_strlit("VDecod*");
    reveal_strlit("VOutle*");
    reveal_strlit("VizCompositor");
    reveal_strlit("VizWebView");
    reveal_strlit("VulkanRenderMan");
    reveal_strlit("Web Content");
    reveal_strlit("Worker Thread");
    reveal_strlit("[Bb][Gg]*");
    reveal_strlit("[Bb]inder:*");
    reveal_strlit("alsoft-mixer");
    reveal_strlit("arch_disk*");
    reveal_strlit("arch_disk_*");
    reveal_strlit("beacon-thread-*");
    reveal_strlit("binder:*");
    reveal_strlit("cached-pool-*");
    reveal_strlit("decodeQueue*");
    reveal_strlit("fileUploadQueue");
    reveal_strlit("files_database*");
    reveal_strlit("glide*");
    reveal_strlit("glide-*");
    reveal_strlit("hwui*");
    reveal_strlit("hwuiTask*");
    reveal_strlit("ijk_dash_pool_*");
    reveal_strlit("io.worker*");
    reveal_strlit("ledThreadPool-*");
    reveal_strlit("looper_monitor");
    reveal_strlit("main");
    reveal_strlit("mali-*");
    reveal_strlit("mpv/*");
    reveal_strlit("mqt_*");
    reveal_strlit("onPool-worker-*");
    reveal_strlit("pivotal-pool-*");
    reveal_strlit("pool-[0-9]*-thread*");
    reveal_strlit("rx-pool-*");
    reveal_strlit("searchQueue");
    reveal_strlit("stageQueue*");
    reveal_strlit("storageQueue*");
    reveal_strlit("vrpool-*");
    reveal_with_fuel(matches_from, 13);
    reveal_with_fuel(class_items_end, 4);
    reveal_with_fuel(class_items_hit, 4);
    assert(classify_spec(rs, "Loading"@) == CoreTarget::LittleAndBig) by {
        let name = "Loading"@;
        assert(name.len() == 7);
        assert forall|j: int| 0 <= j < rs.len() && rs[j].priority == 100 implies #[trigger] rs[
            j
        ].pattern != name by {
            let p = rs[j].pattern;
            assert(p == name ==> p.len() == 7 && p[0] == name[0] && p[1] == name[1] && p[2] == name[2] && p[3] == name[3] && p[4] == name[4] && p[5] == name[5] && p[6] == name[6]);
        }
        assert forall|j: int| 0 <= j < rs.len() && rs[j].priority == 50 implies !glob_spec(
            #[trigger] rs[j].pattern,
            name,
        ) by {}
        assert forall|j: int| 0 <= j < 144 && rs[j].priority == 20 implies !glob_spec(
            #[trigger] rs[j].pattern,
            name,
        ) by {}
        assert(glob_spec(rs[144].pattern, name));
        lemma_broad_entry_wins(name, 144);
    }
}

/// A thread whose name holds `audio` or `Audio` and that nothing more
/// specific claims goes to the little cores, as this name shows:
/// `audio` (`*[Aa]udio*`).
#[verifier::spinoff_prover]
#[verifier::rlimit(100)]
pub proof fn law_audio_word_thread_name()
    ensures
        classify_spec(builtin_rules(), "audio"@) == CoreTarget::Little,
{
    let rs = builtin_rules();
    reveal_strlit("#pool-[0-9]*-thread*");
    reveal_strlit("*ColdPool*");
    reveal_strlit("*Dispatcher");
    reveal_strlit("*Event*");
    reveal_strlit("*HotPool*");
    reveal_strlit("*Loading*");
    reveal_strlit("*TaskQueue*");
    reveal_strlit("*ThreadPool*");
    reveal_strlit("*Worker*");
    reveal_strlit("*[Aa]nim*");
    reveal_strlit("*[Aa]udio*");
    reveal_strlit("*[Bb]ackStage*");
    reveal_strlit("*[Bb]inder*");
    reveal_strlit("*[Hh]ttp*");
    reveal_strlit("*[Pp]ool*");
    reveal_strlit("*worker*");
    reveal_strlit("1.raster");
    reveal_strlit("1.ui");
    reveal_strlit("2.ui");
    reveal_strlit("?.io");
    reveal_strlit("?.raster");
    reveal_strlit("?.ui");
    reveal_strlit("AILocalThread");
    reveal_strlit("AOutle*");
    reveal_strlit("APM_light-weigh");
    reveal_strlit("AndroidRender");
    reveal_strlit("AndroidUI");
    reveal_strlit("AnimationThread");
    reveal_strlit("Apollo-*");
    reveal_strlit("AsyncTask*");
    reveal_strlit("AudioThread");
    reveal_strlit("AudioTrack");
    reveal_strlit("Binder:*");
    reveal_strlit("CRI*");
    reveal_strlit("CallbackHndlr");
    reveal_strlit("Chrome_ChildIOT");
    reveal_strlit("Chrome_IOThread");
    reveal_strlit("Chrome_InProcGp");
    reveal_strlit("Chrome_InProcRe");
    reveal_strlit("ChromiumNet*");
    reveal_strlit("CodecLooper*");
    reveal_strlit("Compositor");
    reveal_strlit("Compute*");
    reveal_strlit("CoreThread");
    reveal_strlit("CrRendererMain");
    reveal_strlit("CriManaDecode*");
    reveal_strlit("DartWorker*");
    reveal_strlit("DefaultDispatch");
    reveal_strlit("DefaultExecutor");
    reveal_strlit("DispatchQueuePo");
    reveal_strlit("DownloadThreadP*");
    reveal_strlit("ExoPlayer:*");
    reveal_strlit("FAsyncLoading*");
    reveal_strlit("FMOD*");
    reveal_strlit("GC?Marker??");
    reveal_strlit("GLThread*");
    reveal_strlit("GPM-DataThread");
    reveal_strlit("GameThread");
    reveal_strlit("Game[0-9]*");
    reveal_strlit("GcamViewfinder");
    reveal_strlit("Gecko");
    reveal_strlit("HadesLibPool*");
    reveal_strlit("HadesPool*");
    reveal_strlit("HeapTaskDaemon");
    reveal_strlit("HwBinder:*");
    reveal_strlit("IL2CPP*");
    reveal_strlit("IO*Thread*");
    reveal_strlit("IO-*");
    reveal_strlit("IOThread*");
    reveal_strlit("IPC*");
    reveal_strlit("IPDL*");
    reveal_strlit("InputDispatcher");
    reveal_strlit("InsetsAnimation");
    reveal_strlit("JNISurfaceTextu");
    reveal_strlit("JavaBridge");
    reveal_strlit("Jit thread pool");
    reveal_strlit("Job.[Ww]orker*");
    reveal_strlit("JobThread*");
    reveal_strlit("Loading.*");
    reveal_strlit("LogAppendWork");
    reveal_strlit("LogicThread");
    reveal_strlit("Lynx_JS");
    reveal_strlit("MainThread");
    reveal_strlit("MainThread*");
    reveal_strlit("Mainloop");
    reveal_strlit("MediaCodec*");
    reveal_strlit("MiniRainbowMain");
    reveal_strlit("MiniRenderThrea");
    reveal_strlit("NativeThread*");
    reveal_strlit("NetworkService");
    reveal_strlit("OkHttp*");
    reveal_strlit("PakMergeThread");
    reveal_strlit("Phenix-Schedule");
    reveal_strlit("PoolThread*");
    reveal_strlit("RHIThread");
    reveal_strlit("RHIThread*");
    reveal_strlit("RenderEngine");
    reveal_strlit("RenderThread");
    reveal_strlit("RenderThread*");
    reveal_strlit("RenderingThread");
    reveal_strlit("RxCachedThreadS");
    reveal_strlit("ShaderCompiling");
    reveal_strlit("Shared_w*");
    reveal_strlit("Socket Thread");
    reveal_strlit("SoundDecoder*");
    reveal_strlit("SoundPool*");
    reveal_strlit("Task*");
    reveal_strlit("TaskGraph*");
    reveal_strlit("Thread-*");
    reveal_strlit("ThreadPool*");
    reveal_strlit("ThreadPoolForeg*");
    reveal_strlit("ThreadPoolServi*");
    reveal_strlit("ThumbnailStorag");
    reveal_strlit("UEGameThread");
    reveal_strlit("UnityChoreo*");
    reveal_strlit("UnityChoreograp*");
    reveal_strlit("UnityGfx*");
    reveal_strlit("UnityGfxDeviceW");
    reveal_strlit("UnityMain");
    reveal_strlit("UnityMultiRende*");
    reveal_strlit("UnityPreload");
    reveal_strlit("UnityPreload*");
    reveal_strlit("VCMainThread");
    reveal_strlit("VDecod*");
    reveal_strlit("VOutle*");
    reveal_strlit("VizCompositor");
    reveal_strlit("VizWebView");
    reveal_strlit("VulkanRenderMan");
    reveal_strlit("Web Content");
    reveal_strlit("Worker Thread");
    reveal_strlit("[Bb][Gg]*");
    reveal_strlit("[Bb]inder:*");
    reveal_strlit("alsoft-mixer");
    reveal_strlit("arch_disk*");
    reveal_strlit("arch_disk_*");
    reveal_strlit("audio");
    reveal_strlit("beacon-thread-*");
    reveal_strlit("binder:*");
    reveal_strlit("cached-pool-*");
    reveal_strlit("decodeQueue*");
    reveal_strlit("fileUploadQueue");
    reveal_strlit("files_database*");
    reveal_strlit("glide*");
    reveal_strlit("glide-*");
    reveal_strlit("hwui*");
    reveal_strlit("hwuiTask*");
    reveal_strlit("ijk_dash_pool_*");
    reveal_strlit("io.worker*");
    reveal_strlit("ledThreadPool-*");
    reveal_strlit("looper_monitor");
    reveal_strlit("main");
    reveal_strlit("mali-*");
    reveal_strlit("mpv/*");
    reveal_strlit("mqt_*");
    reveal_strlit("onPool-worker-*");
    reveal_strlit("pivotal-pool-*");
    reveal_strlit("pool-[0-9]*-thread*");
    reveal_strlit("rx-pool-*");
    reveal_strlit("searchQueue");
    reveal_strlit("stageQueue*");
    reveal_strlit("storageQueue*");
    reveal_strlit("vrpool-*");
    reveal_with_fuel(matches_from, 11);
    reveal_with_fuel(class_items_end, 4);
    reveal_with_fuel(class_items_hit, 4);
    assert(classify_spec(rs, "audio"@) == CoreTarget::Little) by {
        let name = "audio"@;
        assert(name.len() == 5);
        assert forall|j: int| 0 <= j < rs.len() && rs[j].priority == 100 implies #[trigger] rs[
            j
        ].pattern != name by {
            let p = rs[j].pattern;
            assert(p == name ==> p.len() == 5 && p[0] == name[0] && p[1] == name[1] && p[2] == name[2] && p[3] == name[3] && p[4] == name[4]);
        }
        assert forall|j: int| 0 <= j < rs.len() && rs[j].priority == 50 implies !glob_spec(
            #[trigger] rs[j].pattern,
            name,
        ) by {}
        assert forall|j: int| 0 <= j < 151 && rs[j].priority == 20 implies !glob_spec(
            #[trigger] rs[j].pattern,
            name,
        ) by {}
        assert(glob_spec(rs[151].pattern, name));
        lemma_broad_entry_wins(name, 151);
    }
}

/// Where the built-in table places the thread `thread_name`.
pub fn classify_thread(thread_name: &str) -> (res: CoreTarget)
    ensures
        res == classify_spec(builtin_rules(), thread_name@),
{
    let rules = thread_rules();
    let ghost rs = builtin_rules();
    let ghost name = thread_name@;
    let mut best_target = CoreTarget::Default;
    let mut best_priority: u8 = 0;
    let ghost mut best: int = -1;
    let mut i: usize = 0;
    while i < rules.len()
        invariant
            rs == builtin_rules(),
            name == thread_name@,
            rules@.len() == rs.len(),
            forall|j: int| 0 <= j < rules@.len() ==> #[trigger] rules@[j].spec() == rs[j],
            i <= rules.len(),
            -1 <= best < i,
            best == -1 ==> best_priority == 0 && best_target == CoreTarget::Default,
            best >= 0 ==> glob_spec(rs[best].pattern, name) && best_priority == rs[best].priority
                && best_priority > 0 && best_target == rs[best].target,
            forall|j: int|
                0 <= j < i && glob_spec(#[trigger] rs[j].pattern, name) ==> rs[j].priority
                    <= best_priority,
            best >= 0 ==> forall|j: int|
                0 <= j < best && glob_spec(#[trigger] rs[j].pattern, name) ==> rs[j].priority
                    < best_priority,
        decreases rules.len() - i,
    {
        let rule = rules[i];
        assert(rule.spec() == rs[i as int]);
        if thread_matches(rule.pattern, thread_name) {
            if rule.priority > best_priority {
                best_priority = rule.priority;
                best_target = rule.target;
                proof {
                    best = i as int;
                }
            }
        }
        i = i + 1;
    }
    proof {
        if best >= 0 {
            assert(is_winning_rule(rs, name, best));
            lemma_winning_rule_unique(rs, name, best, choose|k: int| is_winning_rule(rs, name, k));
        } else {
            if exists|k: int| is_winning_rule(rs, name, k) {
                let k = choose|k: int| is_winning_rule(rs, name, k);
                assert(glob_spec(rs[k].pattern, name));
            }
        }
    }
    best_target
}

/// The engine a process most likely runs on, from its thread names.
#[derive(Debug, Clone, Copy, PartialEq, Eq, Structural)]
pub enum EngineHint {
    Unity,
    Unreal,
    Flutter,
    Chromium,
    Native,
    Unknown,
}

/// The engine that one thread name gives away, if any.
pub open spec fn engine_of_name(n: Seq<char>) -> Option<EngineHint> {
    if n == "UnityMain"@ || has_prefix(n, "UnityGfx"@) {
        Some(EngineHint::Unity)
    } else if n == "GameThread"@ || n == "UEGameThread"@ || n == "RHIThread"@ {
        Some(EngineHint::Unreal)
    } else if n == "1.ui"@ || n == "1.raster"@ || has_prefix(n, "DartWorker"@) {
        Some(EngineHint::Flutter)
    } else if n == "CrRendererMain"@ || n == "Chrome_IOThread"@ || n == "Chrome_InProcGp"@ {
        Some(EngineHint::Chromium)
    } else {
        None
    }
}

/// The engine given away by the first name in `names` that gives one away,
/// or `Unknown`.
pub open spec fn detect_engine_spec(names: Seq<Seq<char>>) -> EngineHint
    decreases names.len(),
{
    if names.len() == 0 {
        EngineHint::Unknown
    } else {
        match engine_of_name(names[0]) {
            Some(e) => e,
            None => detect_engine_spec(names.drop_first()),
        }
    }
}

/// A list whose first name gives an engine away is put down to that engine,
/// whatever names follow.
proof fn lemma_detect_engine_first(n: Seq<char>, rest: Seq<Seq<char>>, e: EngineHint)
    requires
        engine_of_name(n) == Some(e),
    ensures
        detect_engine_spec(seq![n] + rest) == e,
{
    let l = seq![n] + rest;
    assert(l[0] == n);
}

/// The thread names that give an engine away: `UnityMain` and every name
/// that begins with `UnityGfx` mean Unity; `GameThread`, `UEGameThread` and
/// `RHIThread` mean Unreal; `1.ui`, `1.raster` and every name that begins
/// with `DartWorker` mean Flutter; `CrRendererMain`, `Chrome_IOThread` and
/// `Chrome_InProcGp` mean Chromium. A process whose first such thread has
/// one of these names is put down to that engine, whatever threads follow.
pub proof fn law_engine_thread_names(suffix: Seq<char>, rest: Seq<Seq<char>>)
    ensures
        detect_engine_spec(seq!["UnityMain"@] + rest) == EngineHint::Unity,
        detect_engine_spec(seq!["UnityGfx"@ + suffix] + rest) == EngineHint::Unity,
        detect_engine_spec(seq!["GameThread"@] + rest) == EngineHint::Unreal,
        detect_engine_spec(seq!["UEGameThread"@] + rest) == EngineHint::Unreal,
        detect_engine_spec(seq!["RHIThread"@] + rest) == EngineHint::Unreal,
        detect_engine_spec(seq!["1.ui"@] + rest) == EngineHint::Flutter,
        detect_engine_spec(seq!["1.raster"@] + rest) == EngineHint::Flutter,
        detect_engine_spec(seq!["DartWorker"@ + suffix] + rest) == EngineHint::Flutter,
        detect_engine_spec(seq!["CrRendererMain"@] + rest) == EngineHint::Chromium,
        detect_engine_spec(seq!["Chrome_IOThread"@] + rest) == EngineHint::Chromium,
        detect_engine_spec(seq!["Chrome_InProcGp"@] + rest) == EngineHint::Chromium,
{
    reveal_strlit("UnityMain");
    reveal_strlit("UnityGfx");
    reveal_strlit("GameThread");
    reveal_strlit("UEGameThread");
    reveal_strlit("RHIThread");
    reveal_strlit("1.ui");
    reveal_strlit("1.raster");
    reveal_strlit("DartWorker");
    reveal_strlit("CrRendererMain");
    reveal_strlit("Chrome_IOThread");
    reveal_strlit("Chrome_InProcGp");
    let gfx = "UnityGfx"@ + suffix;
    let dart = "DartWorker"@ + suffix;
    assert(gfx.subrange(0, 8) =~= "UnityGfx"@);
    assert(dart.subrange(0, 10) =~= "DartWorker"@);
    assert(gfx[0] == 'U' && gfx[5] == 'G');
    assert(dart[0] == 'D');
    lemma_detect_engine_first("UnityMain"@, rest, EngineHint::Unity);
    lemma_detect_engine_first(gfx, rest, EngineHint::Unity);
    lemma_detect_engine_first("GameThread"@, rest, EngineHint::Unreal);
    lemma_detect_engine_first("UEGameThread"@, rest, EngineHint::Unreal);
    assert("RHIThread"@.subrange(0, 8)[0] == 'R');
    lemma_detect_engine_first("RHIThread"@, rest, EngineHint::Unreal);
    lemma_detect_engine_first("1.ui"@, rest, EngineHint::Flutter);
    lemma_detect_engine_first("1.raster"@, rest, EngineHint::Flutter);
    lemma_detect_engine_first(dart, rest, EngineHint::Flutter);
    lemma_detect_engine_first("CrRendererMain"@, rest, EngineHint::Chromium);
    lemma_detect_engine_first("Chrome_IOThread"@, rest, EngineHint::Chromium);
    lemma_detect_engine_first("Chrome_InProcGp"@, rest, EngineHint::Chromium);
}

fn is_name(n: &Vec<char>, lit: &str) -> (res: bool)
    ensures
        res == (n@ == lit@),
{
    let l = chars_of(lit);
    chars_equal(n, &l)
}

fn has_name_prefix(n: &Vec<char>, lit: &str) -> (res: bool)
    ensures
        res == has_prefix(n@, lit@),
{
    let l = chars_of(lit);
    starts_with_chars(n, &l)
}

fn engine_of(name: &String) -> (res: Option<EngineHint>)
    ensures
        res == engine_of_name(name@),
{
    let n = chars_of(name.as_str());
    if is_name(&n, "UnityMain") || has_name_prefix(&n, "UnityGfx") {
        Some(EngineHint::Unity)
    } else if is_name(&n, "GameThread") || is_name(&n, "UEGameThread") || is_name(&n, "RHIThread") {
        Some(EngineHint::Unreal)
    } else if is_name(&n, "1.ui") || is_name(&n, "1.raster") || has_name_prefix(&n, "DartWorker") {
        Some(EngineHint::Flutter)
    } else if is_name(&n, "CrRendererMain") || is_name(&n, "Chrome_IOThread") || is_name(
        &n,
        "Chrome_InProcGp",
    ) {
        Some(EngineHint::Chromium)
    } else {
        None
    }
}

/// The views of a list of strings.
pub open spec fn string_views(names: Seq<String>) -> Seq<Seq<char>> {
    names.map_values(|s: String| s@)
}

/// Guesses the engine of a process from the names of its threads.
pub fn detect_engine(thread_names: &[String]) -> (res: EngineHint)
    ensures
        res == detect_engine_spec(string_views(thread_names@)),
{
    let ghost all = string_views(thread_names@);
    assert(all.subrange(0, all.len() as int) =~= all);
    let mut i: usize = 0;
    while i < thread_names.len()
        invariant
            i <= thread_names@.len(),
            all == string_views(thread_names@),
            detect_engine_spec(all) == detect_engine_spec(all.subrange(i as int, all.len() as int)),
        decreases thread_names.len() - i,
    {
        let ghost rest = all.subrange(i as int, all.len() as int);
        assert(rest[0] == thread_names@[i as int]@);
        if let Some(e) = engine_of(&thread_names[i]) {
            return e;
        }
        assert(rest.drop_first() =~= all.subrange(i + 1, all.len() as int));
        i = i + 1;
    }
    assert(all.subrange(i as int, all.len() as int).len() == 0);
    EngineHint::Unknown
}

} // verus!
