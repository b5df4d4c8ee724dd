//! The launch configuration of the browser: what it shows, at what size and
//! with which arguments.
use vstd::prelude::*;

verus! {

/// What the browser shows.
#[derive(Debug, PartialEq, Eq, Hash, Clone, Copy)]
pub enum Content<'a> {
    /// The URL
    Url(&'a str),
    /// HTML text
    Html(&'a str),
}

/// The arguments that every launch passes to the browser, in order.
pub open spec fn default_args() -> Seq<Seq<char>> {
    seq![
        "--disable-background-networking"@,
        "--disable-background-timer-throttling"@,
        "--disable-backgrounding-occluded-windows"@,
        "--disable-breakpad"@,
        "--disable-client-side-phishing-detection"@,
        "--disable-default-apps"@,
        "--disable-dev-shm-usage"@,
        "--disable-infobars"@,
        "--disable-extensions"@,
        "--disable-features=site-per-process"@,
        "--disable-hang-monitor"@,
        "--disable-ipc-flooding-protection"@,
        "--disable-popup-blocking"@,
        "--disable-prompt-on-repost"@,
        "--disable-renderer-backgrounding"@,
        "--disable-sync"@,
        "--disable-translate"@,
        "--disable-windows10-custom-titlebar"@,
        "--metrics-recording-only"@,
        "--no-first-run"@,
        "--no-default-browser-check"@,
        "--safebrowsing-disable-auto-update"@,
        "--password-store=basic"@,
        "--use-mock-keychain"@,
    ]
}

/// The arguments that every launch passes to the browser, in order.
pub fn default_args_list() -> (r: Vec<String>)
    ensures
        r@.map_values(|s: String| s@) == default_args(),
{
    let mut r: Vec<String> = Vec::new();
    r.push("--disable-background-networking".to_owned());
    r.push("--disable-background-timer-throttling".to_owned());
    r.push("--disable-backgrounding-occluded-windows".to_owned());
    r.push("--disable-breakpad".to_owned());
    r.push("--disable-client-side-phishing-detection".to_owned());
    r.push("--disable-default-apps".to_owned());
    r.push("--disable-dev-shm-usage".to_owned());
    r.push("--disable-infobars".to_owned());
    r.push("--disable-extensions".to_owned());
    r.push("--disable-features=site-per-process".to_owned());
    r.push("--disable-hang-monitor".to_owned());
    r.push("--disable-ipc-flooding-protection".to_owned());
    r.push("--disable-popup-blocking".to_owned());
    r.push("--disable-prompt-on-repost".to_owned());
    r.push("--disable-renderer-backgrounding".to_owned());
    r.push("--disable-sync".to_owned());
    r.push("--disable-translate".to_owned());
    r.push("--disable-windows10-custom-titlebar".to_owned());
    r.push("--metrics-recording-only".to_owned());
    r.push("--no-first-run".to_owned());
    r.push("--no-default-browser-check".to_owned());
    r.push("--safebrowsing-disable-auto-update".to_owned());
    r.push("--password-store=basic".to_owned());
    r.push("--use-mock-keychain".to_owned());
    assert(r@.map_values(|s: String| s@) =~= default_args());
    r
}

/// The decimal digits of a natural number.
pub open spec fn decimal(n: nat) -> Seq<char>
    decreases n,
{
    if n < 10 {
        "0123456789"@.subrange(n as int, n + 1int)
    } else {
        decimal(n / 10) + "0123456789"@.subrange((n % 10) as int, (n % 10) + 1int)
    }
}

/// Appends the decimal digits of `n`.
pub fn push_decimal(s: &mut String, n: u32)
    ensures
        final(s)@ == old(s)@ + decimal(n as nat),
    decreases n,
{
    proof {
        reveal_strlit("0123456789");
    }
    if n >= 10 {
        push_decimal(s, n / 10);
    }
    let d = (n % 10) as usize;
    s.append("0123456789".substring_char(d, d + 1));
}

/// The address that the browser opens for the content.
pub open spec fn content_address(c: Content) -> Seq<char> {
    match c {
        Content::Url(u) => u@,
        Content::Html(h) => "data:text/html,"@ + h@,
    }
}

impl<'a> Content<'a> {
    /// The address that the browser opens for this content: the URL itself,
    /// or a `data:` URL of the HTML text.
    pub fn address(&self) -> (r: String)
        ensures
            r@ == content_address(*self),
    {
        match self {
            Content::Url(u) => (*u).to_owned(),
            Content::Html(h) => {
                let mut s = "data:text/html,".to_owned();
                s.append(*h);
                s
            },
        }
    }
}

/// Builder for the launch of a browser window.
pub struct UIBuilder<'a> {
    content: Content<'a>,
    dir: Option<&'a str>,
    width: i32,
    height: i32,
    custom_args: &'a [&'a str],
    browser_path: Option<&'a str>,
}

/// Whether `args` holds the argument `a`.
pub open spec fn has_arg(args: Seq<&str>, a: Seq<char>) -> bool {
    exists|i: int| 0 <= i < args.len() && (#[trigger] args[i])@ == a
}

/// The arguments that a launch passes to the browser: the default ones, the
/// user data directory, the window size where both sides are positive, the
/// custom ones, the debugging pipe, and the address, bare in kiosk or
/// headless mode and else as the address of an app window.
pub open spec fn launch_args(
    data_dir: Seq<char>,
    width: i32,
    height: i32,
    custom: Seq<&str>,
    address: Seq<char>,
) -> Seq<Seq<char>> {
    let size = if width > 0 && height > 0 {
        seq!["--window-size="@ + decimal(width as nat) + ","@ + decimal(height as nat)]
    } else {
        Seq::empty()
    };
    let last = if has_arg(custom, "--kiosk"@) || has_arg(custom, "--headless"@) {
        address
    } else {
        "--app="@ + address
    };
    default_args() + seq!["--user-data-dir="@ + data_dir] + size + custom.map_values(|a: &str| a@)
        + seq!["--remote-debugging-pipe"@, last]
}

/// Whether `args` holds the argument `a`.
pub fn holds_arg(args: &[&str], a: &str) -> (r: bool)
    ensures
        r == has_arg(args@, a@),
{
    let mut i: usize = 0;
    while i < args.len()
        invariant
            i <= args@.len(),
            forall|j: int| 0 <= j < i ==> (#[trigger] args@[j])@ != a@,
        decreases args@.len() - i,
    {
        if crate::json::same_text(args[i], a) {
            return true;
        }
        i = i + 1;
    }
    false
}

impl<'a> Default for UIBuilder<'a> {
    /// The same as `UIBuilder::new()`.
    fn default() -> (r: Self)
        ensures
            r.content_spec() == Content::Html(""),
            r.dir_spec() is None,
            r.width_spec() == 0,
            r.height_spec() == 0,
            r.custom_args_spec().len() == 0,
            r.browser_path_spec() is None,
    {
        Self::new()
    }
}

impl<'a> UIBuilder<'a> {
    pub closed spec fn content_spec(&self) -> Content<'a> {
        self.content
    }

    pub closed spec fn dir_spec(&self) -> Option<&'a str> {
        self.dir
    }

    pub closed spec fn width_spec(&self) -> i32 {
        self.width
    }

    pub closed spec fn height_spec(&self) -> i32 {
        self.height
    }

    pub closed spec fn custom_args_spec(&self) -> Seq<&'a str> {
        self.custom_args@
    }

    pub closed spec fn browser_path_spec(&self) -> Option<&'a str> {
        self.browser_path
    }

    /// Empty HTML content, no size, no custom arguments, and the browser and
    /// data directory found at launch.
    pub fn new() -> (r: Self)
        ensures
            r.content_spec() == Content::Html(""),
            r.dir_spec() is None,
            r.width_spec() == 0,
            r.height_spec() == 0,
            r.custom_args_spec().len() == 0,
            r.browser_path_spec() is None,
    {
        let none: &'a [&'a str] = &[];
        UIBuilder {
            content: Content::Html(""),
            dir: None,
            width: 0,
            height: 0,
            custom_args: none,
            browser_path: None,
        }
    }

    /// Sets the path of the browser to launch.
    pub fn browser_path(&mut self, path: &'a str) -> (r: &mut Self)
        ensures
            r.browser_path_spec() == Some(path),
            r.content_spec() == old(self).content_spec(),
            r.dir_spec() == old(self).dir_spec(),
            r.width_spec() == old(self).width_spec(),
            r.height_spec() == old(self).height_spec(),
            r.custom_args_spec() == old(self).custom_args_spec(),
            *final(self) == *final(r),
    {
        self.browser_path = Some(path);
        self
    }

    /// Sets the content (url or html text).
    pub fn content(&mut self, content: Content<'a>) -> (r: &mut Self)
        ensures
            r.content_spec() == content,
            r.dir_spec() == old(self).dir_spec(),
            r.width_spec() == old(self).width_spec(),
            r.height_spec() == old(self).height_spec(),
            r.custom_args_spec() == old(self).custom_args_spec(),
            r.browser_path_spec() == old(self).browser_path_spec(),
            *final(self) == *final(r),
    {
        self.content = content;
        self
    }

    /// Sets the user data directory. By default it is a temporary directory.
    pub fn user_data_dir(&mut self, dir: &'a str) -> (r: &mut Self)
        ensures
            r.dir_spec() == Some(dir),
            r.content_spec() == old(self).content_spec(),
            r.width_spec() == old(self).width_spec(),
            r.height_spec() == old(self).height_spec(),
            r.custom_args_spec() == old(self).custom_args_spec(),
            r.browser_path_spec() == old(self).browser_path_spec(),
            *final(self) == *final(r),
    {
        self.dir = Some(dir);
        self
    }

    /// Sets the window size; a size with a side that is not positive leaves
    /// the size to the browser.
    pub fn size(&mut self, width: i32, height: i32) -> (r: &mut Self)
        ensures
            r.width_spec() == width,
            r.height_spec() == height,
            r.content_spec() == old(self).content_spec(),
            r.dir_spec() == old(self).dir_spec(),
            r.custom_args_spec() == old(self).custom_args_spec(),
            r.browser_path_spec() == old(self).browser_path_spec(),
            *final(self) == *final(r),
    {
        self.width = width;
        self.height = height;
        self
    }

    /// Adds custom arguments to spawn the browser with.
    pub fn custom_args(&mut self, custom_args: &'a [&'a str]) -> (r: &mut Self)
        ensures
            r.custom_args_spec() == custom_args@,
            r.content_spec() == old(self).content_spec(),
            r.dir_spec() == old(self).dir_spec(),
            r.width_spec() == old(self).width_spec(),
            r.height_spec() == old(self).height_spec(),
            r.browser_path_spec() == old(self).browser_path_spec(),
            *final(self) == *final(r),
    {
        self.custom_args = custom_args;
        self
    }

    /// The content to show.
    pub fn get_content(&self) -> (r: Content<'a>)
        ensures
            r == self.content_spec(),
    {
        self.content
    }

    /// The user data directory, where one was set.
    pub fn get_user_data_dir(&self) -> (r: Option<&'a str>)
        ensures
            r == self.dir_spec(),
    {
        self.dir
    }

    /// The path of the browser, where one was set.
    pub fn get_browser_path(&self) -> (r: Option<&'a str>)
        ensures
            r == self.browser_path_spec(),
    {
        self.browser_path
    }

    /// The arguments to launch the browser with, given the user data
    /// directory `data_dir`.
    pub fn launch_args(&self, data_dir: &str) -> (r: Vec<String>)
        ensures
            r@.map_values(|s: String| s@) == launch_args(
                data_dir@,
                self.width_spec(),
                self.height_spec(),
                self.custom_args_spec(),
                content_address(self.content_spec()),
            ),
    {
        let ghost f = |s: String| s@;
        let mut r = default_args_list();
        let mut dir_arg = "--user-data-dir=".to_owned();
        dir_arg.append(data_dir);
        let ghost r0 = r@;
        r.push(dir_arg);
        assert(r@.map_values(f) =~= default_args() + seq!["--user-data-dir="@ + data_dir@]) by {
            assert(r@ =~= r0.push(dir_arg));
        }
        let ghost size_spec = if self.width > 0 && self.height > 0 {
            seq!["--window-size="@ + decimal(self.width as nat) + ","@ + decimal(self.height as nat)]
        } else {
            Seq::<Seq<char>>::empty()
        };
        let ghost r1 = r@;
        if self.width > 0 && self.height > 0 {
            let mut size = "--window-size=".to_owned();
            push_decimal(&mut size, self.width as u32);
            size.append(",");
            push_decimal(&mut size, self.height as u32);
            r.push(size);
            assert(r@ =~= r1.push(size));
        }
        assert(r@.map_values(f) =~= r1.map_values(f) + size_spec);
        let ghost before_custom = r@.map_values(f);
        let mut i: usize = 0;
        while i < self.custom_args.len()
            invariant
                i <= self.custom_args@.len(),
                f == (|s: String| s@),
                r@.map_values(f) == before_custom + self.custom_args@.subrange(
                    0,
                    i as int,
                ).map_values(|a: &str| a@),
            decreases self.custom_args@.len() - i,
        {
            let ghost prev = r@;
            let a = self.custom_args[i].to_owned();
            r.push(a);
            proof {
                assert(r@ =~= prev.push(a));
                assert(r@.map_values(f) =~= prev.map_values(f).push(a@));
                assert(self.custom_args@.subrange(0, i + 1) =~= self.custom_args@.subrange(
                    0,
                    i as int,
                ).push(self.custom_args@[i as int]));
                assert(r@.map_values(f) =~= before_custom + self.custom_args@.subrange(
                    0,
                    i + 1,
                ).map_values(|a: &str| a@));
            }
            i = i + 1;
        }
        assert(self.custom_args@.subrange(0, i as int) =~= self.custom_args@);
        let ghost r2 = r@;
        r.push("--remote-debugging-pipe".to_owned());
        let address = self.content.address();
        let last = if holds_arg(self.custom_args, "--kiosk") || holds_arg(
            self.custom_args,
            "--headless",
        ) {
            address
        } else {
            let mut app = "--app=".to_owned();
            app.append(address.as_str());
            app
        };
        let ghost r3 = r@;
        r.push(last);
        assert(r@ =~= r2.push(r3.last()).push(last));
        assert(r@.map_values(f) =~= launch_args(
            data_dir@,
            self.width_spec(),
            self.height_spec(),
            self.custom_args_spec(),
            content_address(self.content_spec()),
        ));
        r
    }
}

} // verus!
