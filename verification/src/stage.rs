//! The stage: the top-level router owning the named scenes, the active
//! scene, and the parameter bag handed to a scene when it starts.

use crate::cache::TextureCache;
use crate::config::{Config, MAX_PICS};
use crate::display::{Action, DrawCmd};
use crate::geom::Rect;
use crate::gesture::InputEvent;
use crate::view::{
    gv_handle_rel, gv_update_rel, pv_handle_rel, pv_on_start_rel, pv_update_rel, GalleryView,
    Preview,
};
use vstd::prelude::*;

verus! {

/// One top-level scene: the thumbnail grid or the carousel.
pub enum Scene {
    Gallery(GalleryView),
    Preview(Preview),
}

impl Scene {
    pub open spec fn wf(self) -> bool {
        match self {
            Scene::Gallery(g) => g.wf(),
            Scene::Preview(p) => p.wf(),
        }
    }

    /// Both scenes take part in event dispatch and per-frame update.
    pub fn is_interactive(&self) -> (r: bool)
        ensures
            r == true,
    {
        match self {
            Scene::Gallery(g) => g.is_interactive(),
            Scene::Preview(p) => p.is_interactive(),
        }
    }

    /// Forward one input event to the scene.
    pub fn handle_events(
        &mut self,
        evt: &InputEvent,
        cfg: &Config,
        cache: &TextureCache,
        now: u64,
    ) -> (r: Option<Action>)
        requires
            old(self).wf(),
            cfg.wf(),
            cache.wf(),
        ensures
            final(self).wf(),
            match *old(self) {
                Scene::Gallery(g0) => match *final(self) {
                    Scene::Gallery(g1) => gv_handle_rel(g0, g1, *evt, now, r),
                    Scene::Preview(_) => false,
                },
                Scene::Preview(p0) => match *final(self) {
                    Scene::Preview(p1) => pv_handle_rel(p0, p1, *cfg, *cache, *evt, now, r),
                    Scene::Gallery(_) => false,
                },
            },
    {
        match self {
            Scene::Gallery(g) => g.handle_events(evt, now),
            Scene::Preview(p) => p.handle_events(evt, cfg, cache, now),
        }
    }

    /// Advance the scene by one frame.
    pub fn update(&mut self, cfg: &Config, cache: &mut TextureCache, now: u64)
        requires
            old(self).wf(),
            cfg.wf(),
            old(cache).wf(),
        ensures
            final(self).wf(),
            final(cache).wf(),
            match *old(self) {
                Scene::Gallery(g0) => match *final(self) {
                    Scene::Gallery(g1) => gv_update_rel(g0, g1, *old(cache), *final(cache), now),
                    Scene::Preview(_) => false,
                },
                Scene::Preview(p0) => match *final(self) {
                    Scene::Preview(p1) => pv_update_rel(
                        p0,
                        p1,
                        *cfg,
                        *old(cache),
                        *final(cache),
                        now,
                    ),
                    Scene::Gallery(_) => false,
                },
            },
    {
        match self {
            Scene::Gallery(g) => g.update(cache, now),
            Scene::Preview(p) => p.update(cfg, cache, now),
        }
    }

    /// Run the scene's entry hook with the parameter bag: the carousel
    /// re-centers on the selected picture, the grid needs no entry work.
    pub fn on_start(
        &mut self,
        params: Option<usize>,
        cfg: &Config,
        cache: &mut TextureCache,
    )
        requires
            old(self).wf(),
            cfg.wf(),
            old(cache).wf(),
            match params {
                Some(i) => i <= MAX_PICS,
                None => true,
            },
        ensures
            final(self).wf(),
            final(cache).wf(),
            match *old(self) {
                Scene::Gallery(g0) => *final(self) == *old(self) && *final(cache) == *old(cache),
                Scene::Preview(p0) => match *final(self) {
                    Scene::Preview(p1) => pv_on_start_rel(
                        p0,
                        p1,
                        params,
                        *cfg,
                        *old(cache),
                        *final(cache),
                    ),
                    Scene::Gallery(_) => false,
                },
            },
    {
        match self {
            Scene::Gallery(_g) => {},
            Scene::Preview(p) => p.on_start(params, cfg, cache),
        }
    }

    /// Compute the scene's draw commands.
    pub fn render(&self, cache: &TextureCache, rect: Rect) -> (r: Vec<DrawCmd>)
        requires
            self.wf(),
            cache.wf(),
        ensures
            match *self {
                Scene::Gallery(g) => match g.layout {
                    Some(l) => r@ == crate::view::gv_render_from(
                        g.images@,
                        l,
                        *cache,
                        rect,
                        crate::util::spec_div_trunc(g.translate_y as int, 1000),
                        0,
                    ),
                    None => r@.len() == 0,
                },
                Scene::Preview(p) => r@ == crate::view::pv_render(p, *cache, rect),
            },
    {
        match self {
            Scene::Gallery(g) => g.render(cache, rect),
            Scene::Preview(p) => p.render(cache, rect),
        }
    }
}

/// The first scene registered under the key, if any.
pub open spec fn scene_index_of(scenes: Seq<(String, Scene)>, k: Seq<char>, i: int) -> Option<
    int,
>
    decreases scenes.len() - i,
{
    if i < 0 || i >= scenes.len() {
        None
    } else if scenes[i].0@ == k {
        Some(i)
    } else {
        scene_index_of(scenes, k, i + 1)
    }
}

/// How one `Scene::handle_events` call relates scene states, the raised
/// action and the clock.
pub open spec fn scene_he_rel(
    pre: Scene,
    post: Scene,
    cfg: Config,
    cache: TextureCache,
    evt: InputEvent,
    now: u64,
    r: Option<Action>,
) -> bool {
    match pre {
        Scene::Gallery(g0) => match post {
            Scene::Gallery(g1) => gv_handle_rel(g0, g1, evt, now, r),
            Scene::Preview(_) => false,
        },
        Scene::Preview(p0) => match post {
            Scene::Preview(p1) => pv_handle_rel(p0, p1, cfg, cache, evt, now, r),
            Scene::Gallery(_) => false,
        },
    }
}

/// How one `Stage::start` call relates a stage (given as its scene list,
/// parameter bag and active index before the call) to the stage and
/// cache after it.
pub open spec fn stage_start_rel(
    pre_scenes: Seq<(String, Scene)>,
    pre_params: Option<usize>,
    pre_active: Option<usize>,
    post: Stage,
    cpre: TextureCache,
    cpost: TextureCache,
    k: Seq<char>,
    cfg: Config,
) -> bool {
    &&& post.params == pre_params
    &&& post.scenes@.len() == pre_scenes.len()
    &&& (forall|i: int|
        0 <= i < pre_scenes.len() ==> (#[trigger] post.scenes@[i]).0 == pre_scenes[i].0)
    &&& match scene_index_of(pre_scenes, k, 0) {
        None => post.scenes@ == pre_scenes && post.active == pre_active && cpost == cpre,
        Some(i) => {
            &&& post.active == Some(i as usize)
            &&& (forall|j: int|
                0 <= j < pre_scenes.len() && j != i ==> #[trigger] post.scenes@[j]
                    == pre_scenes[j])
            &&& match pre_scenes[i].1 {
                Scene::Gallery(_) => post.scenes@[i].1 == pre_scenes[i].1 && cpost == cpre,
                Scene::Preview(p0) => match post.scenes@[i].1 {
                    Scene::Preview(p1) => pv_on_start_rel(p0, p1, pre_params, cfg, cpre, cpost),
                    Scene::Gallery(_) => false,
                },
            }
        },
    }
}

/// If some index at or after `i` carries the name `k`, the scan from `i`
/// finds a match.
proof fn lemma_scene_index_finds(scenes: Seq<(String, Scene)>, k: Seq<char>, i: int, w: int)
    requires
        0 <= i <= w < scenes.len(),
        scenes[w].0@ == k,
    ensures
        scene_index_of(scenes, k, i) is Some,
    decreases w - i,
{
    if scenes[i].0@ != k {
        lemma_scene_index_finds(scenes, k, i + 1, w);
    }
}

/// No two scenes are registered under the same name.
pub open spec fn uniq_scene_names(s: Seq<(String, Scene)>) -> bool {
    forall|i: int, j: int| 0 <= i < j < s.len() ==> s[i].0@ != s[j].0@
}

/// The top-level router: named scenes, at most one of them active, and
/// the opaque parameter bag (here: a selected picture index) handed to
/// the next scene on activation.
pub struct Stage {
    pub scenes: Vec<(String, Scene)>,
    pub active: Option<usize>,
    pub params: Option<usize>,
}

impl Stage {
    pub open spec fn wf(self) -> bool {
        &&& forall|i: int| 0 <= i < self.scenes@.len() ==> (#[trigger] self.scenes@[i].1).wf()
        &&& uniq_scene_names(self.scenes@)
        &&& match self.active {
            Some(i) => (i as int) < self.scenes@.len(),
            None => true,
        }
        &&& match self.params {
            Some(p) => p <= MAX_PICS,
            None => true,
        }
    }

    pub fn new() -> (r: Stage)
        ensures
            r.scenes@.len() == 0,
            r.active is None,
            r.params is None,
            r.wf(),
    {
        Stage { scenes: Vec::new(), active: None, params: None }
    }

    /// Register a scene under a name.  At most one scene lives under
    /// each name: registering an already-used name replaces that scene.
    #[verifier::loop_isolation(false)]
    pub fn add_scene(&mut self, key: &str, c: Scene)
        requires
            old(self).wf(),
            c.wf(),
        ensures
            final(self).wf(),
            final(self).active == old(self).active,
            final(self).params == old(self).params,
            match scene_index_of(old(self).scenes@, key@, 0) {
                Some(i) => {
                    &&& final(self).scenes@.len() == old(self).scenes@.len()
                    &&& (forall|j: int|
                        0 <= j < old(self).scenes@.len() && j != i ==> final(self).scenes@[j]
                            == old(self).scenes@[j])
                    &&& final(self).scenes@[i].0@ == key@
                    &&& final(self).scenes@[i].1 == c
                },
                None => {
                    &&& final(self).scenes@.len() == old(self).scenes@.len() + 1
                    &&& (forall|j: int|
                        0 <= j < old(self).scenes@.len() ==> final(self).scenes@[j] == old(
                            self,
                        ).scenes@[j])
                    &&& final(self).scenes@.last().0@ == key@
                    &&& final(self).scenes@.last().1 == c
                },
            },
    {
        let k: String = key.to_owned();
        let n = self.scenes.len();
        let mut i: usize = 0;
        while i < n
            invariant
                i <= n,
                *self == *old(self),
                scene_index_of(old(self).scenes@, key@, 0) == scene_index_of(
                    old(self).scenes@,
                    key@,
                    i as int,
                ),
            decreases n - i,
        {
            if self.scenes[i].0 == k {
                self.scenes.set(i, (k, c));
                proof {
                    assert forall|a: int, b: int|
                        0 <= a < b < self.scenes@.len() implies self.scenes@[a].0@
                        != self.scenes@[b].0@ by {
                        assert(old(self).scenes@[a].0@ == self.scenes@[a].0@ || a == i);
                        assert(old(self).scenes@[b].0@ == self.scenes@[b].0@ || b == i);
                    }
                }
                return ;
            }
            i = i + 1;
        }
        self.scenes.push((k, c));
        proof {
            assert forall|a: int, b: int|
                0 <= a < b < self.scenes@.len() implies self.scenes@[a].0@
                != self.scenes@[b].0@ by {
                if b == old(self).scenes@.len() as int {
                    assert(self.scenes@[a] == old(self).scenes@[a]);
                    if self.scenes@[a].0@ == key@ {
                        lemma_scene_index_finds(old(self).scenes@, key@, 0, a);
                    }
                }
            }
        }
    }

    /// Stash the parameter bag for the next scene start.
    pub fn set_params(&mut self, p: usize)
        requires
            old(self).wf(),
            p <= MAX_PICS,
        ensures
            final(self).wf(),
            *final(self) == (Stage { params: Some(p), ..*old(self) }),
    {
        self.params = Some(p);
    }

    /// The current parameter bag.
    pub fn get_params(&self) -> (r: Option<usize>)
        ensures
            r == self.params,
    {
        self.params
    }

    /// Look up the scene registered under `key`, run its entry hook with
    /// the current parameters, and make it active; an unknown name is a
    /// no-op and the active scene stays.
    #[verifier::loop_isolation(false)]
    pub fn start(&mut self, key: &str, cfg: &Config, cache: &mut TextureCache)
        requires
            old(self).wf(),
            cfg.wf(),
            old(cache).wf(),
        ensures
            final(self).wf(),
            final(cache).wf(),
            final(self).params == old(self).params,
            final(self).scenes@.len() == old(self).scenes@.len(),
            forall|i: int|
                0 <= i < old(self).scenes@.len() ==> final(self).scenes@[i].0 == old(self).scenes@[i].0,
            stage_start_rel(
                old(self).scenes@,
                old(self).params,
                old(self).active,
                *final(self),
                *old(cache),
                *final(cache),
                key@,
                *cfg,
            ),
            match scene_index_of(old(self).scenes@, key@, 0) {
                None => *final(self) == *old(self) && *final(cache) == *old(cache),
                Some(i) => {
                    &&& final(self).active == Some(i as usize)
                    &&& forall|j: int|
                        0 <= j < old(self).scenes@.len() && j != i ==> final(self).scenes@[j]
                            == old(self).scenes@[j]
                    &&& match old(self).scenes@[i].1 {
                        Scene::Gallery(_) => final(self).scenes@[i].1 == old(self).scenes@[i].1
                            && *final(cache) == *old(cache),
                        Scene::Preview(p0) => match final(self).scenes@[i].1 {
                            Scene::Preview(p1) => pv_on_start_rel(
                                p0,
                                p1,
                                old(self).params,
                                *cfg,
                                *old(cache),
                                *final(cache),
                            ),
                            Scene::Gallery(_) => false,
                        },
                    }
                },
            },
    {
        let k: String = key.to_owned();
        let n = self.scenes.len();
        let mut i: usize = 0;
        while i < n
            invariant
                i <= n,
                scene_index_of(old(self).scenes@, key@, 0) == scene_index_of(
                    old(self).scenes@,
                    key@,
                    i as int,
                ),
                *self == *old(self),
                cache.wf(),
                *cache == *old(cache),
            decreases n - i,
        {
            if self.scenes[i].0 == k {
                let params = self.params;
                let scene = &mut self.scenes[i].1;
                proof {
                    assert(old(self).scenes@[i as int].1.wf());
                }
                scene.on_start(params, cfg, cache);
                self.active = Some(i);
                return ;
            }
            i = i + 1;
        }
    }

    /// Advance the active scene by one frame.
    pub fn update(&mut self, cfg: &Config, cache: &mut TextureCache, now: u64)
        requires
            old(self).wf(),
            cfg.wf(),
            old(cache).wf(),
        ensures
            final(self).wf(),
            final(cache).wf(),
            final(self).active == old(self).active,
            final(self).params == old(self).params,
            final(self).scenes@.len() == old(self).scenes@.len(),
            match old(self).active {
                None => *final(self) == *old(self) && *final(cache) == *old(cache),
                Some(a) => {
                    &&& forall|j: int|
                        0 <= j < old(self).scenes@.len() && j != a as int ==> final(self).scenes@[j] == old(self).scenes@[j]
                    &&& final(self).scenes@[a as int].0 == old(self).scenes@[a as int].0
                    &&& match old(self).scenes@[a as int].1 {
                        Scene::Gallery(g0) => match final(self).scenes@[a as int].1 {
                            Scene::Gallery(g1) => gv_update_rel(
                                g0,
                                g1,
                                *old(cache),
                                *final(cache),
                                now,
                            ),
                            Scene::Preview(_) => false,
                        },
                        Scene::Preview(p0) => match final(self).scenes@[a as int].1 {
                            Scene::Preview(p1) => pv_update_rel(
                                p0,
                                p1,
                                *cfg,
                                *old(cache),
                                *final(cache),
                                now,
                            ),
                            Scene::Gallery(_) => false,
                        },
                    }
                },
            },
    {
        let a = match self.active {
            Some(a) => a,
            None => {
                return ;
            },
        };
        let scene = &mut self.scenes[a].1;
        proof {
            assert(old(self).scenes@[a as int].1.wf());
        }
        scene.update(cfg, cache, now);
    }

    /// Compute the active scene's draw commands; nothing while no scene
    /// is active.
    pub fn render(&self, cache: &TextureCache, rect: Rect) -> (r: Vec<DrawCmd>)
        requires
            self.wf(),
            cache.wf(),
        ensures
            match self.active {
                None => r@.len() == 0,
                Some(a) => match self.scenes@[a as int].1 {
                    Scene::Gallery(g) => match g.layout {
                        Some(l) => r@ == crate::view::gv_render_from(
                            g.images@,
                            l,
                            *cache,
                            rect,
                            crate::util::spec_div_trunc(g.translate_y as int, 1000),
                            0,
                        ),
                        None => r@.len() == 0,
                    },
                    Scene::Preview(p) => r@ == crate::view::pv_render(p, *cache, rect),
                },
            },
    {
        match self.active {
            Some(a) => {
                proof {
                    assert(self.scenes@[a as int].1.wf());
                }
                self.scenes[a].1.render(cache, rect)
            },
            None => Vec::new(),
        }
    }

    /// Dispatch one input event to the active scene and intercept the
    /// action it raises: a request to preview a picture stashes the index
    /// and starts the carousel scene; a request for the gallery starts
    /// the grid scene.  The stage itself raises nothing further.
    pub fn handle_events(
        &mut self,
        evt: &InputEvent,
        cfg: &Config,
        cache: &mut TextureCache,
        now: u64,
    ) -> (r: Option<Action>)
        requires
            old(self).wf(),
            cfg.wf(),
            old(cache).wf(),
            cfg.gallery.pics@.len() <= MAX_PICS,
        ensures
            final(self).wf(),
            final(cache).wf(),
            r is None,
            old(self).active is None ==> *final(self) == *old(self) && *final(cache) == *old(
                cache,
            ),
            match old(self).active {
                None => true,
                Some(a) => exists|mid: Scene, act: Option<Action>|
                    {
                        let scenes1 = old(self).scenes@.update(
                            a as int,
                            (old(self).scenes@[a as int].0, mid),
                        );
                        &&& #[trigger] scene_he_rel(
                            old(self).scenes@[a as int].1,
                            mid,
                            *cfg,
                            *old(cache),
                            *evt,
                            now,
                            act,
                        )
                        &&& match act {
                            None => final(self).scenes@ == scenes1 && final(self).active == old(
                                self,
                            ).active && final(self).params == old(self).params && *final(cache)
                                == *old(cache),
                            Some(action) => match action {
                                Action::ShowPreview(i) => stage_start_rel(
                                    scenes1,
                                    Some(i),
                                    old(self).active,
                                    *final(self),
                                    *old(cache),
                                    *final(cache),
                                    "preview"@,
                                    *cfg,
                                ),
                                Action::ShowGallery => stage_start_rel(
                                    scenes1,
                                    old(self).params,
                                    old(self).active,
                                    *final(self),
                                    *old(cache),
                                    *final(cache),
                                    "gallery"@,
                                    *cfg,
                                ),
                            },
                        }
                    },
            },
    {
        let a = match self.active {
            Some(a) => a,
            None => {
                return None;
            },
        };
        let action: Option<Action> = {
            let scene = &mut self.scenes[a].1;
            proof {
                assert(old(self).scenes@[a as int].1.wf());
            }
            let act = scene.handle_events(evt, cfg, &*cache, now);
            proof {
                match old(self).scenes@[a as int].1 {
                    Scene::Gallery(g0) => {
                        match act {
                            Some(Action::ShowPreview(idx)) => {
                                let m0 = g0.model();
                                let stepped = crate::view::GvModel {
                                    detectors: Seq::new(
                                        m0.detectors.len(),
                                        |i: int| crate::gesture::sub_step(m0.detectors[i], *evt),
                                    ),
                                    pool: Seq::empty(),
                                    ..m0
                                };
                                crate::view::lemma_gv_process_action_bound(
                                    stepped,
                                    m0.pool + crate::gesture::emitted_from(m0.detectors, *evt),
                                    now,
                                );
                            },
                            _ => {},
                        }
                    },
                    Scene::Preview(p0) => {
                        crate::display::lemma_btn_scan_gallery(
                            p0.back_btn.gesture_detector.pool@ + crate::gesture::emitted_from(
                                p0.back_btn.gesture_detector.detectors@,
                                *evt,
                            ),
                            p0.back_btn.rect,
                            cfg.width as int,
                            cfg.height as int,
                        );
                    },
                }
            }
            act
        };
        let ghost mid_scene = self.scenes@[a as int].1;
        proof {
            assert(self.scenes@ =~= old(self).scenes@.update(
                a as int,
                (old(self).scenes@[a as int].0, mid_scene),
            ));
        }
        match action {
            Some(Action::ShowPreview(i)) => {
                self.set_params(i);
                self.start("preview", cfg, cache);
            },
            Some(Action::ShowGallery) => {
                self.start("gallery", cfg, cache);
            },
            None => {},
        }
        proof {
            assert(scene_he_rel(
                old(self).scenes@[a as int].1,
                mid_scene,
                *cfg,
                *old(cache),
                *evt,
                now,
                action,
            ));
        }
        None
    }
}

} // verus!
