//! How a screen is drawn on: the configuration of the display, its size, and the interfaces that
//! the drawing context offers to the pipeline.
use vstd::prelude::*;
use vstd::string::*;

use glutin::config::Api;

verus! {

/// A configuration that a display offers.
#[derive(Clone, Copy, Debug, PartialEq, Eq, Structural)]
pub struct ConfigInfo {
    /// The number of samples for each pixel.
    pub num_samples: u8,
    /// The bits of the client interfaces that the configuration supports.
    pub api: u8,
}

/// Whether `k` is the configuration to use: the one with the most samples, the last of them where
/// several have as many.
pub open spec fn is_best_config(configs: Seq<ConfigInfo>, k: int) -> bool {
    &&& 0 <= k < configs.len()
    &&& forall|i: int|
        0 <= i < k ==> (#[trigger] configs[i]).num_samples <= configs[k].num_samples
    &&& forall|i: int|
        k < i < configs.len() ==> (#[trigger] configs[i]).num_samples < configs[k].num_samples
}

/// The configuration to use.
pub open spec fn best_config(configs: Seq<ConfigInfo>) -> int {
    choose|k: int| is_best_config(configs, k)
}

/// There is one configuration to use, if there is any.
pub proof fn best_config_is_unique(configs: Seq<ConfigInfo>, j: int, k: int)
    requires
        is_best_config(configs, j),
        is_best_config(configs, k),
    ensures
        j == k,
        best_config(configs) == k,
{
    let c = best_config(configs);
    assert(is_best_config(configs, c));
    assert(configs[j].num_samples == configs[k].num_samples || j == k);
    assert(configs[c].num_samples == configs[k].num_samples || c == k);
}

/// A display that offers a configuration has one to use.
pub proof fn best_config_exists(configs: Seq<ConfigInfo>)
    requires
        configs.len() > 0,
    ensures
        is_best_config(configs, best_config(configs)),
{
    let k = last_with_most_samples(configs, configs.len() as int);
    assert(is_best_config(configs, k));
}

/// There is a last configuration with the most samples among the first `n`.
proof fn last_with_most_samples(configs: Seq<ConfigInfo>, n: int) -> (k: int)
    requires
        0 < n <= configs.len(),
    ensures
        0 <= k < n,
        forall|i: int|
            0 <= i < n ==> (#[trigger] configs[i]).num_samples <= configs[k].num_samples,
        forall|i: int| k < i < n ==> (#[trigger] configs[i]).num_samples < configs[k].num_samples,
    decreases n,
{
    if n == 1 {
        0
    } else {
        let k = last_with_most_samples(configs, n - 1);
        if configs[k].num_samples <= configs[n - 1].num_samples {
            n - 1
        } else {
            k
        }
    }
}

/// A client interface of the drawing library.
#[derive(Clone, Copy, Debug, PartialEq, Eq, Structural)]
pub enum ClientApi {
    OpenGl,
    Gles1,
    Gles2,
}

impl ClientApi {
    /// The bit of the interface.
    pub open spec fn bit(self) -> u8 {
        match self {
            ClientApi::OpenGl => 1,
            ClientApi::Gles1 => 2,
            ClientApi::Gles2 => 4,
        }
    }
}

/// Whether a configuration supports a client interface.
pub open spec fn supports(api: u8, client: ClientApi) -> bool {
    api & client.bit() == client.bit()
}

/// The interfaces that a drawing context offers to the pipeline.
#[derive(Clone, Copy, Debug, PartialEq, Eq, Structural)]
pub struct GlApi {
    pub opengl3: bool,
    pub gles1: bool,
    pub gles2: bool,
}

/// Tests the interfaces of a configuration with `Api::contains` of `glutin`, after
/// `from_bits_truncate`. Claimed: the result is whether the bit of the interface is set; the bits
/// of `Api::OPENGL`, `Api::GLES1` and `Api::GLES2` are 1, 2 and 4.
#[verifier::external_body]
fn api_contains(bits: u8, client: ClientApi) -> (r: bool)
    ensures
        r == supports(bits, client),
{
    let api = match client {
        ClientApi::OpenGl => Api::OPENGL,
        ClientApi::Gles1 => Api::GLES1,
        ClientApi::Gles2 => Api::GLES2,
    };
    Api::from_bits_truncate(bits).contains(api)
}

/// The interfaces that a context made with a configuration offers: OpenGL counts as version 3.
pub open spec fn offered_api(api: u8) -> GlApi {
    GlApi {
        opengl3: supports(api, ClientApi::OpenGl),
        gles1: supports(api, ClientApi::Gles1),
        gles2: supports(api, ClientApi::Gles2),
    }
}

/// The interfaces that a context made with a configuration offers.
pub fn gst_gl_api(api: u8) -> (r: GlApi)
    ensures
        r == offered_api(api),
{
    GlApi {
        opengl3: api_contains(api, ClientApi::OpenGl),
        gles1: api_contains(api, ClientApi::Gles1),
        gles2: api_contains(api, ClientApi::Gles2),
    }
}

/// The configuration to use.
pub fn select_config(configs: &Vec<ConfigInfo>) -> (r: Option<usize>)
    ensures
        r is None <==> configs@.len() == 0,
        r matches Some(k) ==> is_best_config(configs@, k as int) && k == best_config(configs@),
{
    if configs.len() == 0 {
        return None;
    }
    let mut best: usize = 0;
    let mut i: usize = 1;
    while i < configs.len()
        invariant
            best < i <= configs@.len(),
            is_best_config(configs@.take(i as int), best as int),
        decreases configs@.len() - i,
    {
        let ghost seen = configs@.take(i as int);
        assert(seen[best as int] == configs@[best as int]);
        assert(forall|j: int|
            0 <= j < i ==> (#[trigger] configs@.take(i + 1)[j]) == seen[j]);
        if configs[best].num_samples <= configs[i].num_samples {
            best = i;
        }
        i += 1;
    }
    assert(configs@.take(i as int) =~= configs@);
    proof {
        best_config_is_unique(configs@, best as int, best as int);
    }
    Some(best)
}

/// Why a display cannot be drawn on, or why drawing ended.
#[derive(Debug, PartialEq, Eq)]
pub enum DisplayError {
    /// The display offers no configuration.
    NoDisplayConfig,
    /// The pipeline does not take the drawing context.
    WrapContext,
    /// The scene cannot be set up.
    OpenGl(String),
    /// A video frame cannot be read.
    FrameUnreadable,
}

impl DisplayError {
    /// The error in words.
    pub open spec fn text(self) -> Seq<char> {
        match self {
            DisplayError::NoDisplayConfig => "no display config found"@,
            DisplayError::WrapContext => "failed to wrap context"@,
            DisplayError::OpenGl(cause) => "failed to create OpenGL setup: "@ + cause@,
            DisplayError::FrameUnreadable => "failed to read video frame from buffer"@,
        }
    }

    /// The error in words.
    pub fn message(&self) -> (r: String)
        ensures
            r@ == self.text(),
    {
        match self {
            DisplayError::NoDisplayConfig => "no display config found".to_owned(),
            DisplayError::WrapContext => "failed to wrap context".to_owned(),
            DisplayError::OpenGl(cause) => {
                let mut text: String = "failed to create OpenGL setup: ".to_owned();
                text.append(cause.as_str());
                text
            },
            DisplayError::FrameUnreadable => "failed to read video frame from buffer".to_owned(),
        }
    }
}

/// What a display is set up with.
#[derive(Clone, Copy, Debug, PartialEq, Eq, Structural)]
pub struct DisplaySetup {
    /// The place of the configuration among those that the display offers.
    pub config: usize,
    /// The interfaces that the context offers to the pipeline.
    pub api: GlApi,
    pub width: u16,
    pub height: u16,
}

impl DisplaySetup {
    /// The setup of a display of a given size that offers configurations.
    pub open spec fn of(width: u16, height: u16, configs: Seq<ConfigInfo>) -> Self {
        let k = best_config(configs);
        DisplaySetup { config: k as usize, api: offered_api(configs[k].api), width, height }
    }

    /// Chooses one of the configurations that a display of a given size offers. A display without
    /// width or height cannot be drawn on.
    pub fn choose_config(width: u16, height: u16, configs: &Vec<ConfigInfo>) -> (r: Result<
        Self,
        DisplayError,
    >)
        requires
            configs@.len() > 0 ==> width > 0 && height > 0,
        ensures
            r is Err <==> configs@.len() == 0,
            r matches Err(error) ==> error is NoDisplayConfig,
            r matches Ok(setup) ==> setup == DisplaySetup::of(width, height, configs@)
                && is_best_config(configs@, setup.config as int) && width > 0 && height > 0,
    {
        match select_config(configs) {
            None => Err(DisplayError::NoDisplayConfig),
            Some(config) => Ok(
                DisplaySetup { config, api: gst_gl_api(configs[config].api), width, height },
            ),
        }
    }

    /// The width and the height of the display.
    pub fn size(&self) -> (r: (u16, u16))
        ensures
            r == (self.width, self.height),
    {
        (self.width, self.height)
    }

    /// The width and the height of the window surface, neither of them zero.
    pub fn surface_size(&self) -> (r: (u32, u32))
        requires
            self.width > 0,
            self.height > 0,
        ensures
            r.0 == self.width,
            r.1 == self.height,
            r.0 > 0,
            r.1 > 0,
    {
        (self.width as u32, self.height as u32)
    }
}

/// The configuration to use has the most samples, and no later one has as many.
pub proof fn best_config_in_numbers(configs: Seq<ConfigInfo>, k: int, i: int)
    requires
        is_best_config(configs, k),
        0 <= i < configs.len(),
    ensures
        0 <= k < configs.len(),
        configs[i].num_samples <= configs[k].num_samples,
        configs[i].num_samples == configs[k].num_samples ==> i <= k,
{
    if i < k {
        assert(configs[i].num_samples <= configs[k].num_samples);
    }
    if k < i {
        assert(configs[i].num_samples < configs[k].num_samples);
    }
}

/// The pipeline is offered an interface where its bit is set among those of the configuration, and
/// no other.
pub proof fn interfaces_in_bits(api: u8)
    ensures
        offered_api(api).opengl3 <==> api & 1 == 1,
        offered_api(api).gles1 <==> api & 2 == 2,
        offered_api(api).gles2 <==> api & 4 == 4,
{
}

/// A setup keeps the size of the display and offers the interfaces of the configuration that it
/// names, which is the best one.
pub proof fn setup_follows_config(width: u16, height: u16, configs: Seq<ConfigInfo>, k: int)
    requires
        is_best_config(configs, k),
        k <= usize::MAX,
    ensures
        ({
            let setup = DisplaySetup::of(width, height, configs);
            &&& setup.config == k
            &&& setup.width == width
            &&& setup.height == height
            &&& setup.api.opengl3 <==> configs[k].api & 1 == 1
            &&& setup.api.gles1 <==> configs[k].api & 2 == 2
            &&& setup.api.gles2 <==> configs[k].api & 4 == 4
        }),
{
    best_config_is_unique(configs, k, k);
}

/// The errors say what went wrong, and pass on why the scene could not be set up.
pub proof fn display_errors_in_words(cause: String)
    ensures
        DisplayError::NoDisplayConfig.text() == "no display config found"@,
        DisplayError::WrapContext.text() == "failed to wrap context"@,
        DisplayError::OpenGl(cause).text() == "failed to create OpenGL setup: "@ + cause@,
        DisplayError::FrameUnreadable.text() == "failed to read video frame from buffer"@,
{
}

} // verus!
