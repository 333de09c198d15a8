use vstd::prelude::*;

use crate::error::Error;
use crate::splitview::{BasicSplitView, Pane, PaneState};
use crate::window::WindowModel;

verus! {

/// Orientation of a split view's panes.
#[derive(Clone, Copy, Debug, PartialEq, Eq, Structural)]
pub enum SplitViewOrientation {
    /// Vertical split (side-by-side panes).
    Vertical,
    /// Horizontal split (stacked panes).
    Horizontal,
}

impl SplitViewOrientation {
    /// Returns true if the orientation is vertical.
    pub fn is_vertical(&self) -> (r: bool)
        ensures
            r == (*self == SplitViewOrientation::Vertical),
    {
        match self {
            SplitViewOrientation::Vertical => true,
            SplitViewOrientation::Horizontal => false,
        }
    }
}

impl Default for SplitViewOrientation {
    /// The default orientation is vertical (side-by-side).
    fn default() -> (r: Self)
        ensures
            r == SplitViewOrientation::Vertical,
    {
        SplitViewOrientation::Vertical
    }
}

/// Mathematical image of a [`PaneConfig`].
pub enum PaneSpec {
    Webview { url: Seq<char> },
    Native { identifier: Seq<char> },
}

/// Describes a pane's intended content.
///
/// At build time this drives what the builder asks the host to create; after
/// construction it stands for what a pane holds.
#[derive(Debug, PartialEq)]
pub enum PaneConfig {
    /// A webview pane showing the given URL.
    Webview { url: String },
    /// A native view pane, named by an identifier the platform adapter resolves.
    Native { identifier: String },
}

impl View for PaneConfig {
    type V = PaneSpec;

    open spec fn view(&self) -> PaneSpec {
        match self {
            PaneConfig::Webview { url } => PaneSpec::Webview { url: url@ },
            PaneConfig::Native { identifier } => PaneSpec::Native { identifier: identifier@ },
        }
    }
}

/// A window position, forwarded to window creation.
///
/// Logical coordinates are carried as the bit patterns of the host's 64-bit
/// floats; the platform adapter converts at the boundary.
#[derive(Clone, Copy, Debug, PartialEq, Eq, Structural)]
pub enum Position {
    Physical { x: i32, y: i32 },
    Logical { x_bits: u64, y_bits: u64 },
}

/// A window size, forwarded to window creation.
///
/// Logical dimensions are carried as the bit patterns of the host's 64-bit
/// floats; the platform adapter converts at the boundary.
#[derive(Clone, Copy, Debug, PartialEq, Eq, Structural)]
pub enum Size {
    Physical { width: u32, height: u32 },
    Logical { width_bits: u64, height_bits: u64 },
}

/// Split-view-specific configuration accumulated by the builder.
///
/// `divider_thickness_bits` holds the bit pattern of the requested thickness.
/// The underlying container does not support post-construction thickness
/// mutation, so the builder records the request without applying it.
#[derive(Debug)]
pub struct SplitViewConfig {
    pub orientation: Option<SplitViewOrientation>,
    pub divider_thickness_bits: Option<u64>,
    pub panes: Vec<PaneConfig>,
}

/// The views of a sequence of pane configurations.
pub open spec fn config_views(panes: Seq<PaneConfig>) -> Seq<PaneSpec> {
    panes.map_values(|p: PaneConfig| p@)
}

/// The content each pane of a container shows.
pub open spec fn pane_contents(panes: Seq<PaneState>) -> Seq<PaneSpec> {
    panes.map_values(|p: PaneState| p.content)
}

/// The URL of the first webview pane, if any.
pub open spec fn first_webview_url(panes: Seq<PaneSpec>) -> Option<Seq<char>>
    decreases panes.len(),
{
    if panes.len() == 0 {
        None
    } else {
        match panes[0] {
            PaneSpec::Webview { url } => Some(url),
            PaneSpec::Native { .. } => first_webview_url(panes.drop_first()),
        }
    }
}

/// The initial content URL a built window shows: the first webview pane's
/// URL if one is configured, else the documented default.
pub open spec fn initial_url_spec(panes: Seq<PaneSpec>) -> Seq<char> {
    match first_webview_url(panes) {
        Some(url) => url,
        None => "index.html"@,
    }
}

/// The pane contents a built container holds, in order.
///
/// The created window's content view shows the derived initial URL and is
/// re-parented as the first pane by conversion. When the first configured
/// pane is a webview it is that content view, so only the remaining panes
/// are appended; otherwise every configured pane is appended after the
/// content view.
pub open spec fn built_panes(cfg: Seq<PaneSpec>) -> Seq<PaneSpec> {
    if cfg.len() > 0 && cfg[0] is Webview {
        cfg
    } else {
        seq![PaneSpec::Webview { url: initial_url_spec(cfg) }] + cfg
    }
}

/// The number of panes a built container holds.
pub open spec fn built_pane_count(cfg: Seq<PaneSpec>) -> int {
    if cfg.len() == 0 {
        1
    } else if cfg[0] is Webview {
        cfg.len() as int
    } else {
        cfg.len() + 1int
    }
}

/// A container built from N configured panes holds exactly N panes when
/// the first configured pane is a webview, and one pane (the default
/// content view) when nothing was configured.
pub proof fn lemma_built_pane_count(cfg: Seq<PaneSpec>)
    ensures
        built_panes(cfg).len() == built_pane_count(cfg),
        cfg.len() > 0 && cfg[0] is Webview ==> built_panes(cfg).len() == cfg.len(),
        cfg.len() == 0 ==> built_panes(cfg).len() == 1,
{
}

/// Skipping a webview-free prefix does not change the first webview URL.
proof fn lemma_first_webview_skip(panes: Seq<PaneSpec>, i: int)
    requires
        0 <= i <= panes.len(),
        forall|k: int| 0 <= k < i ==> !(#[trigger] panes[k] is Webview),
    ensures
        first_webview_url(panes) == first_webview_url(panes.skip(i)),
    decreases i,
{
    if i > 0 {
        assert(!(panes[0] is Webview));
        assert(forall|k: int|
            0 <= k < i - 1 ==> !(#[trigger] panes.drop_first()[k] is Webview));
        lemma_first_webview_skip(panes.drop_first(), i - 1);
        assert(panes.drop_first().skip(i - 1) =~= panes.skip(i));
    } else {
        assert(panes.skip(0) =~= panes);
    }
}

/// Assembles a fluent configuration into a window-creation request and,
/// once the host has created the window, into a split view.
///
/// Label is required; title, position and size are forwarded to window
/// creation; orientation and panes are applied after conversion. The
/// requested divider thickness is recorded but not applied: the underlying
/// container does not support it, and this layer does not pretend success.
#[derive(Debug)]
pub struct SplitViewBuilder {
    pub label: String,
    pub title: Option<String>,
    pub position: Option<Position>,
    pub size: Option<Size>,
    pub split_view_config: SplitViewConfig,
}

/// What the host window framework is asked to create: a window with the
/// given label, showing `url`, with optional title, position and size.
#[derive(Debug)]
pub struct WindowRequest {
    pub label: String,
    pub url: String,
    pub title: Option<String>,
    pub position: Option<Position>,
    pub size: Option<Size>,
}

impl SplitViewBuilder {
    /// Start a configuration for a split view labeled `label`.
    pub fn new(label: String) -> (r: Self)
        ensures
            r == (SplitViewBuilder {
                label,
                title: None,
                position: None,
                size: None,
                split_view_config: r.split_view_config,
            }),
            r.split_view_config.orientation is None,
            r.split_view_config.divider_thickness_bits is None,
            r.split_view_config.panes@.len() == 0,
    {
        SplitViewBuilder {
            label,
            title: None,
            position: None,
            size: None,
            split_view_config: SplitViewConfig {
                orientation: None,
                divider_thickness_bits: None,
                panes: Vec::new(),
            },
        }
    }

    /// Set the window title.
    pub fn title(self, title: String) -> (r: Self)
        ensures
            r == (SplitViewBuilder { title: Some(title), ..self }),
    {
        SplitViewBuilder { title: Some(title), ..self }
    }

    /// Set the window position.
    pub fn position(self, position: Position) -> (r: Self)
        ensures
            r == (SplitViewBuilder { position: Some(position), ..self }),
    {
        SplitViewBuilder { position: Some(position), ..self }
    }

    /// Set the window size.
    pub fn size(self, size: Size) -> (r: Self)
        ensures
            r == (SplitViewBuilder { size: Some(size), ..self }),
    {
        SplitViewBuilder { size: Some(size), ..self }
    }

    /// Set the split orientation.
    pub fn orientation(self, orientation: SplitViewOrientation) -> (r: Self)
        ensures
            r.split_view_config.orientation == Some(orientation),
            r.split_view_config.divider_thickness_bits
                == self.split_view_config.divider_thickness_bits,
            r.split_view_config.panes@ == self.split_view_config.panes@,
            r.label == self.label,
            r.title == self.title,
            r.position == self.position,
            r.size == self.size,
    {
        SplitViewBuilder {
            split_view_config: SplitViewConfig {
                orientation: Some(orientation),
                ..self.split_view_config
            },
            ..self
        }
    }

    /// Append a pane to the configuration.
    pub fn add_pane(self, pane: PaneConfig) -> (r: Self)
        ensures
            r.split_view_config.panes@ == self.split_view_config.panes@.push(pane),
            r.split_view_config.orientation == self.split_view_config.orientation,
            r.split_view_config.divider_thickness_bits
                == self.split_view_config.divider_thickness_bits,
            r.label == self.label,
            r.title == self.title,
            r.position == self.position,
            r.size == self.size,
    {
        let mut config = self.split_view_config;
        config.panes.push(pane);
        SplitViewBuilder { split_view_config: config, ..self }
    }

    /// Record the requested divider thickness (as the host float's bit
    /// pattern). Recorded only: construction does not apply it.
    pub fn divider_thickness(self, thickness_bits: u64) -> (r: Self)
        ensures
            r.split_view_config.divider_thickness_bits == Some(thickness_bits),
            r.split_view_config.orientation == self.split_view_config.orientation,
            r.split_view_config.panes@ == self.split_view_config.panes@,
            r.label == self.label,
            r.title == self.title,
            r.position == self.position,
            r.size == self.size,
    {
        SplitViewBuilder {
            split_view_config: SplitViewConfig {
                divider_thickness_bits: Some(thickness_bits),
                ..self.split_view_config
            },
            ..self
        }
    }

    /// The initial content URL of the window to create: the first webview
    /// pane's URL, or the documented default when none is configured.
    pub fn initial_url(&self) -> (u: String)
        ensures
            u@ == initial_url_spec(config_views(self.split_view_config.panes@)),
    {
        let ghost cfg = config_views(self.split_view_config.panes@);
        let n = self.split_view_config.panes.len();
        let mut i: usize = 0;
        while i < n
            invariant
                i <= n,
                n == self.split_view_config.panes@.len(),
                cfg == config_views(self.split_view_config.panes@),
                forall|k: int| 0 <= k < i ==> !(#[trigger] cfg[k] is Webview),
            decreases n - i,
        {
            match &self.split_view_config.panes[i] {
                PaneConfig::Webview { url } => {
                    proof {
                        lemma_first_webview_skip(cfg, i as int);
                        assert(cfg.skip(i as int)[0] == cfg[i as int]);
                    }
                    return url.clone();
                },
                PaneConfig::Native { .. } => {},
            }
            i += 1;
        }
        proof {
            lemma_first_webview_skip(cfg, n as int);
            assert(cfg.skip(n as int).len() == 0);
        }
        "index.html".to_owned()
    }

    /// The window-creation request this configuration asks the host to
    /// honor: the label, the derived initial URL, and the accumulated
    /// title, position and size.
    pub fn window_request(&self) -> (r: WindowRequest)
        ensures
            r.label@ == self.label@,
            r.url@ == initial_url_spec(config_views(self.split_view_config.panes@)),
            r.title is Some <==> self.title is Some,
            r.title matches Some(t) ==> self.title matches Some(own) && t@ == own@,
            r.position == self.position,
            r.size == self.size,
    {
        WindowRequest {
            label: self.label.clone(),
            url: self.initial_url(),
            title: match &self.title {
                Some(t) => Some(t.clone()),
                None => None,
            },
            position: self.position,
            size: self.size,
        }
    }

    /// Convert the window the host created for this configuration into a
    /// split view and apply the split-view configuration: the requested
    /// orientation (default vertical), and the configured panes appended
    /// after the window's content view (which shows the derived initial
    /// URL and, when the first configured pane is a webview, stands in for
    /// it).
    ///
    /// Fails exactly when the platform window handle is unavailable.
    pub fn build(self, window: WindowModel) -> (r: Result<BasicSplitView, Error>)
        ensures
            r is Ok <==> window.native_handle,
            r matches Err(e) ==> e == Error::NativeHandleUnavailable,
            r matches Ok(sv) ==> {
                let cfg = config_views(self.split_view_config.panes@);
                &&& sv@.wf()
                &&& sv@.label == self.label@
                &&& sv@.container.orientation == (match self.split_view_config.orientation {
                    Some(o) => o,
                    None => SplitViewOrientation::Vertical,
                })
                &&& pane_contents(sv@.container.panes) == built_panes(cfg)
                &&& sv@.container.panes.len() == built_pane_count(cfg)
                &&& (forall|k: int|
                    0 <= k < sv@.container.panes.len() ==> !sv@.container.panes[k].collapsed)
                &&& (forall|k: int|
                    0 <= k < sv@.container.dividers.len() ==> sv@.container.dividers[k] == 0u64)
                &&& sv@.container.divider_thickness_bits == 0
                &&& sv@.window == Some(window@)
                &&& sv@.captured is None
                &&& sv@.handler is None
            },
    {
        let ghost cfg = config_views(self.split_view_config.panes@);
        let url = self.initial_url();
        let content = PaneConfig::Webview { url };
        let ghost content_spec = content@;
        let SplitViewBuilder { label, title: _, position: _, size: _, split_view_config } = self;
        let SplitViewConfig { orientation, divider_thickness_bits: _, panes } = split_view_config;
        let mut sv = match BasicSplitView::from_window(window, content, label) {
            Ok(s) => s,
            Err(e) => {
                return Err(e);
            },
        };
        if let Some(o) = orientation {
            sv.split_view.orientation = o;
        }
        let mut rest = panes;
        if rest.len() > 0 {
            let first_is_webview = match &rest[0] {
                PaneConfig::Webview { .. } => true,
                PaneConfig::Native { .. } => false,
            };
            if first_is_webview {
                let _ = rest.remove(0);
            }
        }
        proof {
            assert(seq![content_spec] + config_views(rest@) =~= built_panes(cfg));
            assert(pane_contents(sv@.container.panes) =~= seq![content_spec]);
        }
        let ghost total = built_panes(cfg);
        let ghost frame = sv@;
        while rest.len() > 0
            invariant
                sv@.wf(),
                sv@.label == frame.label,
                sv@.container.orientation == frame.container.orientation,
                sv@.container.divider_thickness_bits == frame.container.divider_thickness_bits,
                sv@.window == frame.window,
                sv@.captured == frame.captured,
                sv@.handler == frame.handler,
                pane_contents(sv@.container.panes) + config_views(rest@) == total,
                forall|k: int|
                    0 <= k < sv@.container.panes.len() ==> !sv@.container.panes[k].collapsed,
                forall|k: int|
                    0 <= k < sv@.container.dividers.len() ==> sv@.container.dividers[k] == 0u64,
            decreases rest.len(),
        {
            let ghost rest0 = rest@;
            let ghost panes0 = sv@.container.panes;
            let p = rest.remove(0);
            sv.add_pane(Pane { content: p, collapsed: false });
            proof {
                assert(rest@ =~= rest0.drop_first());
                assert(config_views(rest0)[0] == p@);
                assert(config_views(rest@) =~= config_views(rest0).drop_first());
                assert(pane_contents(sv@.container.panes) =~= pane_contents(panes0).push(p@));
                assert(pane_contents(panes0).push(p@) + config_views(rest0).drop_first() =~= pane_contents(
                    panes0,
                ) + config_views(rest0));
            }
        }
        proof {
            assert(config_views(rest@) =~= Seq::<PaneSpec>::empty());
            assert(pane_contents(sv@.container.panes) + config_views(rest@) =~= pane_contents(
                sv@.container.panes,
            ));
            lemma_built_pane_count(cfg);
        }
        Ok(sv)
    }
}

} // verus!
