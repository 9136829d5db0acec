use vstd::prelude::*;

verus! {

/// Derived metrics, immutable once computed: the inputs of the renderer
/// that come from the contribution index.
pub struct Metrics {
    pub current_streak: u64,
    pub longest_streak: u64,
    pub window_active_days: u32,
    pub window_total: u64,
    pub bar_heights: Vec<u32>,
}

impl Metrics {
    /// Shape the window aggregation always produces and the renderer
    /// relies on: 30 bars, each height at most 5 * 6 + 4.
    pub open spec fn wf(&self) -> bool {
        &&& self.bar_heights@.len() == 30
        &&& forall|j: int| 0 <= j < 30 ==> #[trigger] self.bar_heights@[j] <= 34
    }
}

/// The externally supplied profile numbers interpolated into the footer.
#[derive(Clone, Copy)]
pub struct ProfileSummary {
    pub repo_count: u32,
    pub star_count: u64,
    pub follower_count: u32,
    pub following_count: u32,
    pub total_contributions: u32,
}

proof fn lemma_concat_assoc(a: Seq<char>, b: Seq<char>, c: Seq<char>)
    ensures
        (a + b) + c == a + (b + c),
{
    assert((a + b) + c =~= a + (b + c));
}

pub open spec fn digit_seq(d: nat) -> Seq<char> {
    if d == 0 {
        "0"@
    } else if d == 1 {
        "1"@
    } else if d == 2 {
        "2"@
    } else if d == 3 {
        "3"@
    } else if d == 4 {
        "4"@
    } else if d == 5 {
        "5"@
    } else if d == 6 {
        "6"@
    } else if d == 7 {
        "7"@
    } else if d == 8 {
        "8"@
    } else {
        "9"@
    }
}

/// The plain decimal numeral of `n`, most significant digit first, with
/// no leading zeros and no locale-specific formatting.
pub open spec fn dec_of(n: nat) -> Seq<char>
    decreases n,
{
    if n < 10 {
        digit_seq(n)
    } else {
        dec_of(n / 10) + digit_seq(n % 10)
    }
}

fn push_digit(s: &mut String, d: u32)
    requires
        d < 10,
    ensures
        final(s)@ == old(s)@ + digit_seq(d as nat),
{
    if d == 0 {
        s.append("0");
    } else if d == 1 {
        s.append("1");
    } else if d == 2 {
        s.append("2");
    } else if d == 3 {
        s.append("3");
    } else if d == 4 {
        s.append("4");
    } else if d == 5 {
        s.append("5");
    } else if d == 6 {
        s.append("6");
    } else if d == 7 {
        s.append("7");
    } else if d == 8 {
        s.append("8");
    } else {
        s.append("9");
    }
}

/// Appends the decimal numeral of `n`.
fn push_u64(s: &mut String, n: u64)
    ensures
        final(s)@ == old(s)@ + dec_of(n as nat),
    decreases n,
{
    if n < 10 {
        push_digit(s, n as u32);
    } else {
        push_u64(s, n / 10);
        push_digit(s, (n % 10) as u32);
        proof {
            lemma_concat_assoc(old(s)@, dec_of((n / 10) as nat), digit_seq((n % 10) as nat));
        }
    }
}

/// One bar of the chart: bar `j` (oldest day first) of height `h`, placed
/// at a fixed horizontal spacing of 6 units from offset 24, growing upward
/// from the baseline at 160.
pub open spec fn bar_rect(j: nat, h: u32) -> Seq<char>
    recommends
        h <= 160,
{
    r#"<rect x=""#@ + dec_of(24 + 6 * j) + r#"" y=""#@ + dec_of((160 - h) as nat)
        + r#"" width="4" height=""#@ + dec_of(h as nat) + r#"" rx="1"/>"#@
}

/// The first `n` bars of the chart, in order.
pub open spec fn bars_svg(hs: Seq<u32>, n: nat) -> Seq<char>
    decreases n,
{
    if n == 0 {
        Seq::empty()
    } else {
        bars_svg(hs, (n - 1) as nat) + bar_rect((n - 1) as nat, hs[n - 1])
    }
}

fn push_rect(s: &mut String, j: u32, h: u32)
    requires
        j <= 29,
        h <= 160,
    ensures
        final(s)@ == old(s)@ + bar_rect(j as nat, h),
{
    s.append(r#"<rect x=""#);
    push_u64(s, (24 + 6 * j) as u64);
    s.append(r#"" y=""#);
    push_u64(s, (160 - h) as u64);
    s.append(r#"" width="4" height=""#);
    push_u64(s, h as u64);
    s.append(r#"" rx="1"/>"#);
    proof {
        assert(s@ =~= old(s)@ + bar_rect(j as nat, h));
    }
}

fn push_bars(s: &mut String, hs: &Vec<u32>)
    requires
        hs@.len() == 30,
        forall|j: int| 0 <= j < 30 ==> #[trigger] hs@[j] <= 160,
    ensures
        final(s)@ == old(s)@ + bars_svg(hs@, 30),
{
    let ghost base = s@;
    let mut j: usize = 0;
    proof {
        assert(base + bars_svg(hs@, 0) =~= base);
    }
    while j < 30
        invariant
            j <= 30,
            hs@.len() == 30,
            forall|jj: int| 0 <= jj < 30 ==> #[trigger] hs@[jj] <= 160,
            s@ == base + bars_svg(hs@, j as nat),
        decreases 30 - j,
    {
        push_rect(s, j as u32, hs[j]);
        proof {
            lemma_concat_assoc(base, bars_svg(hs@, j as nat), bar_rect(j as nat, hs@[j as int]));
        }
        j = j + 1;
    }
}

pub open spec fn tpl_head() -> Seq<char> {
    r##"
<svg width="560" height="240" viewBox="0 0 560 240" xmlns="http://www.w3.org/2000/svg">
<style>
:root {
  --bg-start: #f7f4ef;
  --bg-end: #e0f2fe;
  --card: rgba(255,255,255,0.92);
  --text: #0f172a;
  --muted: #64748b;
  --border: rgba(15,23,42,0.08);
  --accent-1: #0ea5e9;
  --accent-2: #22c55e;
  --accent-3: #f59e0b;
}
@media (prefers-color-scheme: dark) {
  :root {
    --bg-start: #0b1220;
    --bg-end: #0f172a;
    --card: rgba(15,23,42,0.88);
    --text: #e2e8f0;
    --muted: #94a3b8;
    --border: rgba(148,163,184,0.18);
    --accent-1: #38bdf8;
    --accent-2: #4ade80;
    --accent-3: #fbbf24;
  }
}

text {
  font-family: "Space Grotesk", "Manrope", "Segoe UI", sans-serif;
  fill: var(--text);
}
.small { fill: var(--muted); font-size: 11px; letter-spacing: 0.02em; }
.label { fill: var(--muted); font-size: 10px; letter-spacing: 0.18em; }
.value { font-size: 24px; font-weight: 600; }
.title { font-size: 16px; font-weight: 600; letter-spacing: 0.06em; text-transform: uppercase; }
.chip { fill: var(--text); font-size: 10px; letter-spacing: 0.14em; }
.bar { fill: url(#barGrad); }
</style>

<defs>
  <linearGradient id="bg" x1="0" y1="0" x2="1" y2="1">
    <stop offset="0%" stop-color="var(--bg-start)"/>
    <stop offset="100%" stop-color="var(--bg-end)"/>
  </linearGradient>
  <linearGradient id="barGrad" x1="0" y1="0" x2="0" y2="1">
    <stop offset="0%" stop-color="var(--accent-1)"/>
    <stop offset="100%" stop-color="var(--accent-2)"/>
  </linearGradient>
  <linearGradient id="spark" x1="0" y1="0" x2="1" y2="1">
    <stop offset="0%" stop-color="var(--accent-1)" stop-opacity="0.9"/>
    <stop offset="100%" stop-color="var(--accent-3)" stop-opacity="0.9"/>
  </linearGradient>
  <pattern id="grid" width="22" height="22" patternUnits="userSpaceOnUse">
    <path d="M22 0H0V22" fill="none" stroke="rgba(15,23,42,0.06)" stroke-width="1"/>
  </pattern>
  <filter id="blur" x="-20%" y="-20%" width="140%" height="140%">
    <feGaussianBlur stdDeviation="18"/>
  </filter>
</defs>

<rect width="560" height="240" rx="28" fill="url(#bg)"/>
<circle cx="72" cy="40" r="54" fill="url(#spark)" opacity="0.5" filter="url(#blur)"/>
<circle cx="498" cy="196" r="64" fill="url(#spark)" opacity="0.35" filter="url(#blur)"/>

<rect x="12" y="12" width="536" height="216" rx="22" fill="var(--card)" stroke="var(--border)"/>
<rect x="12" y="12" width="536" height="216" rx="22" fill="url(#grid)" opacity="0.55"/>

<text x="32" y="38" class="title">GitHub Activity 🥷</text>
<rect x="426" y="22" width="106" height="20" rx="10" fill="url(#spark)" opacity="0.12"/>
<text x="440" y="36" class="chip">LAST 30D</text>

<text x="32" y="84" class="value">🔥 "##@
}

pub open spec fn tpl_longest() -> Seq<char> {
    r#"</text>
<text x="32" y="102" class="label">CURRENT STREAK</text>

<text x="176" y="84" class="value">🏆 "#@
}

pub open spec fn tpl_active() -> Seq<char> {
    r#"</text>
<text x="176" y="102" class="label">LONGEST</text>

<text x="304" y="84" class="value">📈 "#@
}

pub open spec fn tpl_chart() -> Seq<char> {
    r#"/30</text>
<text x="304" y="102" class="label">ACTIVE DAYS</text>

<rect x="32" y="126" width="496" height="62" rx="14" fill="rgba(15,23,42,0.04)"/>
<line x1="32" y1="188" x2="528" y2="188" stroke="rgba(15,23,42,0.08)" stroke-width="1"/>
<g transform="translate(32,128)">"#@
}

pub open spec fn tpl_footer() -> Seq<char> {
    r#"</g>

<text x="32" y="210" class="small">
Repos "#@
}

pub open spec fn tpl_stars() -> Seq<char> {
    " · Stars "@
}

pub open spec fn tpl_followers() -> Seq<char> {
    " · Followers "@
}

pub open spec fn tpl_following() -> Seq<char> {
    " · Following "@
}

pub open spec fn tpl_commits() -> Seq<char> {
    " · Commits(30d) "@
}

pub open spec fn tpl_total() -> Seq<char> {
    " · Total "@
}

pub open spec fn tpl_tail() -> Seq<char> {
    "\n</text>\n</svg>\n"@
}

/// The complete badge document: a fixed 560×240 SVG interpolating the
/// three headline metrics, the 30 bar heights (oldest first), and the
/// footer numbers, every number as a plain decimal numeral. Self-contained
/// markup: nothing external is referenced, so identical inputs render the
/// identical document wherever it is displayed.
pub open spec fn badge_svg(
    current: nat,
    longest: nat,
    active: nat,
    heights: Seq<u32>,
    repos: nat,
    stars: nat,
    followers: nat,
    following: nat,
    commits30: nat,
    total: nat,
) -> Seq<char> {
    tpl_head() + dec_of(current) + tpl_longest() + dec_of(longest) + tpl_active() + dec_of(active)
        + tpl_chart() + bars_svg(heights, 30) + tpl_footer() + dec_of(repos) + tpl_stars()
        + dec_of(stars) + tpl_followers() + dec_of(followers) + tpl_following() + dec_of(following)
        + tpl_commits() + dec_of(commits30) + tpl_total() + dec_of(total) + tpl_tail()
}

/// Renders the computed metrics and the profile numbers into the badge.
/// Total over all valid inputs — there is no failure mode — and pure: the
/// result is exactly `badge_svg` of the inputs, so two calls on identical
/// inputs produce byte-identical documents.
pub fn render(metrics: &Metrics, profile: &ProfileSummary) -> (svg: String)
    requires
        metrics.wf(),
    ensures
        svg@ == badge_svg(
            metrics.current_streak as nat,
            metrics.longest_streak as nat,
            metrics.window_active_days as nat,
            metrics.bar_heights@,
            profile.repo_count as nat,
            profile.star_count as nat,
            profile.follower_count as nat,
            profile.following_count as nat,
            metrics.window_total as nat,
            profile.total_contributions as nat,
        ),
{
    let mut s = String::new();
    s.append(
        r##"
<svg width="560" height="240" viewBox="0 0 560 240" xmlns="http://www.w3.org/2000/svg">
<style>
:root {
  --bg-start: #f7f4ef;
  --bg-end: #e0f2fe;
  --card: rgba(255,255,255,0.92);
  --text: #0f172a;
  --muted: #64748b;
  --border: rgba(15,23,42,0.08);
  --accent-1: #0ea5e9;
  --accent-2: #22c55e;
  --accent-3: #f59e0b;
}
@media (prefers-color-scheme: dark) {
  :root {
    --bg-start: #0b1220;
    --bg-end: #0f172a;
    --card: rgba(15,23,42,0.88);
    --text: #e2e8f0;
    --muted: #94a3b8;
    --border: rgba(148,163,184,0.18);
    --accent-1: #38bdf8;
    --accent-2: #4ade80;
    --accent-3: #fbbf24;
  }
}

text {
  font-family: "Space Grotesk", "Manrope", "Segoe UI", sans-serif;
  fill: var(--text);
}
.small { fill: var(--muted); font-size: 11px; letter-spacing: 0.02em; }
.label { fill: var(--muted); font-size: 10px; letter-spacing: 0.18em; }
.value { font-size: 24px; font-weight: 600; }
.title { font-size: 16px; font-weight: 600; letter-spacing: 0.06em; text-transform: uppercase; }
.chip { fill: var(--text); font-size: 10px; letter-spacing: 0.14em; }
.bar { fill: url(#barGrad); }
</style>

<defs>
  <linearGradient id="bg" x1="0" y1="0" x2="1" y2="1">
    <stop offset="0%" stop-color="var(--bg-start)"/>
    <stop offset="100%" stop-color="var(--bg-end)"/>
  </linearGradient>
  <linearGradient id="barGrad" x1="0" y1="0" x2="0" y2="1">
    <stop offset="0%" stop-color="var(--accent-1)"/>
    <stop offset="100%" stop-color="var(--accent-2)"/>
  </linearGradient>
  <linearGradient id="spark" x1="0" y1="0" x2="1" y2="1">
    <stop offset="0%" stop-color="var(--accent-1)" stop-opacity="0.9"/>
    <stop offset="100%" stop-color="var(--accent-3)" stop-opacity="0.9"/>
  </linearGradient>
  <pattern id="grid" width="22" height="22" patternUnits="userSpaceOnUse">
    <path d="M22 0H0V22" fill="none" stroke="rgba(15,23,42,0.06)" stroke-width="1"/>
  </pattern>
  <filter id="blur" x="-20%" y="-20%" width="140%" height="140%">
    <feGaussianBlur stdDeviation="18"/>
  </filter>
</defs>

<rect width="560" height="240" rx="28" fill="url(#bg)"/>
<circle cx="72" cy="40" r="54" fill="url(#spark)" opacity="0.5" filter="url(#blur)"/>
<circle cx="498" cy="196" r="64" fill="url(#spark)" opacity="0.35" filter="url(#blur)"/>

<rect x="12" y="12" width="536" height="216" rx="22" fill="var(--card)" stroke="var(--border)"/>
<rect x="12" y="12" width="536" height="216" rx="22" fill="url(#grid)" opacity="0.55"/>

<text x="32" y="38" class="title">GitHub Activity 🥷</text>
<rect x="426" y="22" width="106" height="20" rx="10" fill="url(#spark)" opacity="0.12"/>
<text x="440" y="36" class="chip">LAST 30D</text>

<text x="32" y="84" class="value">🔥 "##,
    );
    proof {
        assert(Seq::<char>::empty() + tpl_head() =~= tpl_head());
    }
    push_u64(&mut s, metrics.current_streak);
    s.append(
        r#"</text>
<text x="32" y="102" class="label">CURRENT STREAK</text>

<text x="176" y="84" class="value">🏆 "#,
    );
    push_u64(&mut s, metrics.longest_streak);
    s.append(
        r#"</text>
<text x="176" y="102" class="label">LONGEST</text>

<text x="304" y="84" class="value">📈 "#,
    );
    push_u64(&mut s, metrics.window_active_days as u64);
    s.append(
        r#"/30</text>
<text x="304" y="102" class="label">ACTIVE DAYS</text>

<rect x="32" y="126" width="496" height="62" rx="14" fill="rgba(15,23,42,0.04)"/>
<line x1="32" y1="188" x2="528" y2="188" stroke="rgba(15,23,42,0.08)" stroke-width="1"/>
<g transform="translate(32,128)">"#,
    );
    push_bars(&mut s, &metrics.bar_heights);
    s.append(
        r#"</g>

<text x="32" y="210" class="small">
Repos "#,
    );
    push_u64(&mut s, profile.repo_count as u64);
    s.append(" · Stars ");
    push_u64(&mut s, profile.star_count);
    s.append(" · Followers ");
    push_u64(&mut s, profile.follower_count as u64);
    s.append(" · Following ");
    push_u64(&mut s, profile.following_count as u64);
    s.append(" · Commits(30d) ");
    push_u64(&mut s, metrics.window_total);
    s.append(" · Total ");
    push_u64(&mut s, profile.total_contributions as u64);
    s.append("\n</text>\n</svg>\n");
    s
}

} // verus!
