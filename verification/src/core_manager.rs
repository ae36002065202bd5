//! The mihomo core: where its files live, which subscription files make up
//! its configuration, and the configuration written for it.
use vstd::prelude::*;

use crate::config::app_config::{join_path, path_joined};
use crate::text::{
    alphanumeric, chars_of, contains_seq, contains_str, dec, has_prefix, has_suffix,
    is_alphanumeric, owned, push_chars, push_str, starts_with_str, strip_prefix_all,
    strip_prefix_all_str, copy_range, ends_with_str, string_from_chars, text_lines,
    text_lines_spec, trim_start, trim_start_chars, u64_to_dec,
};

verus! {

/// The core's files: the binary, its working directory and configuration.
pub struct CoreManager;

/// A file name keeps letters, digits, `-` and `_`; anything else becomes
/// `_`.
pub open spec fn sanitize_spec(name: Seq<char>) -> Seq<char> {
    name.map_values(|c: char| if alphanumeric(c) || c == '-' || c == '_' { c } else { '_' })
}

/// `name` made safe for a file name (see `sanitize_spec`).
pub fn sanitize_name(name: &str) -> (r: String)
    ensures
        r@ == sanitize_spec(name@),
{
    let c = chars_of(name);
    let mut v: Vec<char> = Vec::new();
    let mut i: usize = 0;
    while i < c.len()
        invariant
            0 <= i <= c@.len(),
            c@ == name@,
            v@ == sanitize_spec(name@.subrange(0, i as int)),
        decreases c.len() - i,
    {
        let ch = c[i];
        let keep = is_alphanumeric(ch) || ch == '-' || ch == '_';
        v.push(if keep { ch } else { '_' });
        assert(sanitize_spec(name@.subrange(0, i as int + 1)) =~= sanitize_spec(
            name@.subrange(0, i as int),
        ).push(if keep { ch } else { '_' }));
        i = i + 1;
    }
    assert(name@.subrange(0, c@.len() as int) =~= name@);
    string_from_chars(v.as_slice())
}

/// A file in the core directory that holds a subscription: `sub_*.yaml`.
pub open spec fn is_sub_file(file_name: Seq<char>) -> bool {
    has_prefix(file_name, "sub_"@) && has_suffix(file_name, ".yaml"@)
}

/// The subscription a `sub_*.yaml` file holds: the file stem without its
/// leading `sub_`s.
pub open spec fn sub_name_of(file_name: Seq<char>) -> Seq<char> {
    strip_prefix_all(file_name.subrange(0, file_name.len() - 5), "sub_"@)
}

/// The subscriptions among a directory's files (name and displayed path),
/// in the order listed: each as its name and path.
pub open spec fn sub_entries(files: Seq<(Seq<char>, Seq<char>)>) -> Seq<(Seq<char>, Seq<char>)>
    decreases files.len(),
{
    if files.len() == 0 {
        Seq::empty()
    } else {
        let rest = sub_entries(files.drop_last());
        let f = files.last();
        if is_sub_file(f.0) {
            rest.push((sub_name_of(f.0), f.1))
        } else {
            rest
        }
    }
}

/// Pairs of strings as plain text.
pub open spec fn pairs_view(v: Seq<(String, String)>) -> Seq<(Seq<char>, Seq<char>)> {
    v.map_values(|p: (String, String)| (p.0@, p.1@))
}

/// The configuration without subscriptions.
pub open spec fn minimal_config() -> Seq<char> {
    "mixed-port: 7890\nallow-lan: true\nmode: rule\nlog-level: info\n"@
}

/// A subscription that is a whole Clash configuration names a port.
pub open spec fn is_full_config(content: Seq<char>) -> bool {
    contains_seq(content, "port:"@) || contains_seq(content, "mixed-port:"@)
}

/// A line kept from a whole configuration: not the `authentication:` entry
/// (it turns authentication on) and no `GEOIP` rule (those need a database
/// download).
pub open spec fn kept_line(line: Seq<char>) -> bool {
    !has_prefix(line, "authentication:"@) && !has_prefix(trim_start(line), "- GEOIP,"@)
}

/// Lines joined with `\n` between them.
pub open spec fn join_lines(lines: Seq<Seq<char>>) -> Seq<char>
    decreases lines.len(),
{
    if lines.len() == 0 {
        Seq::empty()
    } else if lines.len() == 1 {
        lines[0]
    } else {
        join_lines(lines.drop_last()) + seq!['\n'] + lines.last()
    }
}

/// A whole configuration with the unwanted lines dropped.
pub open spec fn cleaned_config(content: Seq<char>) -> Seq<char> {
    join_lines(text_lines_spec(content).filter(|l: Seq<char>| kept_line(l)))
}

/// The proxy-provider entry of one subscription file.
pub open spec fn provider_block(name: Seq<char>, path: Seq<char>) -> Seq<char> {
    "  "@ + name + ":\n    type: file\n    path: "@ + path
        + "\n    health-check:\n      enable: true\n      url: https://www.gstatic.com/generate_204\n      interval: 300\n\n"@
}

/// The provider entries of all subscriptions.
pub open spec fn provider_blocks(subs: Seq<(Seq<char>, Seq<char>)>) -> Seq<char>
    decreases subs.len(),
{
    if subs.len() == 0 {
        Seq::empty()
    } else {
        provider_blocks(subs.drop_last()) + provider_block(subs.last().0, subs.last().1)
    }
}

/// The members of the `PROXY` group: one line per subscription.
pub open spec fn group_members(subs: Seq<(Seq<char>, Seq<char>)>) -> Seq<char>
    decreases subs.len(),
{
    if subs.len() == 0 {
        Seq::empty()
    } else {
        group_members(subs.drop_last()) + "      - "@ + subs.last().0 + "\n"@
    }
}

/// The configuration that takes each subscription file as a provider and
/// selects among them (or `DIRECT`) in the `PROXY` group.
pub open spec fn merged_config(subs: Seq<(Seq<char>, Seq<char>)>) -> Seq<char> {
    "mixed-port: 7890\nallow-lan: true\nmode: rule\nlog-level: info\n\n"@ + "proxy-providers:\n"@
        + provider_blocks(subs) + "proxy-groups:\n"@
        + "  - name: PROXY\n    type: select\n    proxies:\n"@ + group_members(subs)
        + "      - DIRECT\n"@ + "\nrules:\n  - MATCH,PROXY\n"@
}

/// The main configuration: minimal without subscriptions; the one
/// subscription itself, cleaned, when it is a whole configuration;
/// otherwise the merged configuration.
pub open spec fn main_config(
    subs: Seq<(Seq<char>, Seq<char>)>,
    single: Option<Seq<char>>,
) -> Seq<char> {
    if subs.len() == 0 {
        minimal_config()
    } else if subs.len() == 1 && single is Some && is_full_config(single->0) {
        cleaned_config(single->0)
    } else {
        merged_config(subs)
    }
}

/// With one subscription, its content is the main configuration (cleaned)
/// exactly when it contains `port:` (so also when it names `mixed-port:`);
/// otherwise the subscription is wrapped as a provider.
pub proof fn law_single_full_config_used(
    name: Seq<char>,
    path: Seq<char>,
    content: Seq<char>,
)
    ensures
        contains_seq(content, "port:"@) ==> main_config(seq![(name, path)], Some(content))
            == cleaned_config(content),
        !contains_seq(content, "port:"@) ==> main_config(seq![(name, path)], Some(content))
            == merged_config(seq![(name, path)]),
        contains_seq(content, "mixed-port:"@) ==> main_config(seq![(name, path)], Some(content))
            == cleaned_config(content),
{
    if contains_seq(content, "mixed-port:"@) {
        lemma_mixed_port_names_port(content);
    }
}

/// A subscription used as the main configuration keeps each of its lines
/// but the `authentication:` entry and the `GEOIP` rules: a line is kept
/// exactly when it does not start with `authentication:` and, past its
/// leading blanks, does not start with `- GEOIP,`.
pub proof fn law_cleaning_drops_authentication_and_geoip(line: Seq<char>)
    ensures
        kept_line(line) <==> !has_prefix(line, "authentication:"@) && !has_prefix(
            trim_start(line),
            "- GEOIP,"@,
        ),
{
}

/// Without subscriptions the main configuration is the minimal one: mixed
/// port 7890, LAN allowed, rule mode, info logging.
pub proof fn law_no_subscription_minimal(single: Option<Seq<char>>)
    ensures
        main_config(Seq::empty(), single)
            == "mixed-port: 7890\nallow-lan: true\nmode: rule\nlog-level: info\n"@,
{
}

/// A text that names `mixed-port:` also contains `port:`.
proof fn lemma_mixed_port_names_port(s: Seq<char>)
    requires
        contains_seq(s, "mixed-port:"@),
    ensures
        contains_seq(s, "port:"@),
{
    reveal_strlit("mixed-port:");
    reveal_strlit("port:");
    let i = choose|i: int| crate::text::occurs_at(s, "mixed-port:"@, i);
    assert(s.subrange(i, i + 11) == "mixed-port:"@);
    assert(s.subrange(i + 6, i + 11) =~= "port:"@) by {
        assert forall|j: int| 0 <= j < 5 implies s.subrange(i + 6, i + 11)[j] == "port:"@[j] by {
            assert(s.subrange(i + 6, i + 11)[j] == s.subrange(i, i + 11)[j + 6]);
        }
    }
    assert(crate::text::occurs_at(s, "port:"@, i + 6));
}

/// A configuration whose API controller listens at `host:port`: its own
/// `external-controller:` lines dropped and that entry added at the end.
pub open spec fn controlled_config(config: Seq<char>, host: Seq<char>, port: u16) -> Seq<char> {
    join_lines(
        text_lines_spec(config).filter(|l: Seq<char>| !has_prefix(l, "external-controller:"@)),
    ) + "\nexternal-controller: "@ + host + ":"@ + dec(port as nat) + "\n"@
}

/// The lines of `lines` that `keep` accepts, joined with `\n`.
fn join_kept(lines: &Vec<String>, drop_controller: bool) -> (r: String)
    ensures
        drop_controller ==> r@ == join_lines(
            lines@.map_values(|l: String| l@).filter(
                |l: Seq<char>| !has_prefix(l, "external-controller:"@),
            ),
        ),
        !drop_controller ==> r@ == join_lines(
            lines@.map_values(|l: String| l@).filter(|l: Seq<char>| kept_line(l)),
        ),
{
    let ghost all = lines@.map_values(|l: String| l@);
    let ghost pred = if drop_controller {
        |l: Seq<char>| !has_prefix(l, "external-controller:"@)
    } else {
        |l: Seq<char>| kept_line(l)
    };
    let mut v: Vec<char> = Vec::new();
    let mut first = true;
    let mut i: usize = 0;
    proof {
        reveal(Seq::filter);
        assert(all.subrange(0, 0) =~= Seq::<Seq<char>>::empty());
    }
    while i < lines.len()
        invariant
            0 <= i <= lines@.len(),
            all == lines@.map_values(|l: String| l@),
            pred == (if drop_controller {
                |l: Seq<char>| !has_prefix(l, "external-controller:"@)
            } else {
                |l: Seq<char>| kept_line(l)
            }),
            v@ == join_lines(all.subrange(0, i as int).filter(pred)),
            first == (all.subrange(0, i as int).filter(pred).len() == 0),
        decreases lines.len() - i,
    {
        let c = chars_of(lines[i].as_str());
        let keep = if drop_controller {
            !starts_with_str(c.as_slice(), "external-controller:")
        } else {
            let t = trim_start_chars(c.as_slice());
            !starts_with_str(c.as_slice(), "authentication:") && !starts_with_str(
                t.as_slice(),
                "- GEOIP,",
            )
        };
        let ghost pre = all.subrange(0, i as int);
        proof {
            assert(all.subrange(0, i as int + 1) =~= pre.push(all[i as int]));
            pre.lemma_filter_push(all[i as int], pred);
        }
        if keep {
            if !first {
                v.push('\n');
            }
            push_chars(&mut v, c.as_slice());
            proof {
                let f = pre.filter(pred);
                let g = f.push(all[i as int]);
                assert(g.drop_last() =~= f);
                if f.len() == 0 {
                    assert(g =~= seq![all[i as int]]);
                }
            }
            first = false;
        }
        i = i + 1;
    }
    assert(all.subrange(0, lines@.len() as int) =~= all);
    string_from_chars(v.as_slice())
}

impl CoreManager {
    /// The core directory: `<config dir>/core`.
    pub fn core_dir(config_dir: &str) -> (r: String)
        ensures
            r@ == path_joined(config_dir@, "core"@),
    {
        join_path(config_dir, "core")
    }

    /// The core binary: `mihomo.exe` on Windows, else `mihomo`, in the
    /// core directory.
    pub fn core_binary_path(config_dir: &str, windows: bool) -> (r: String)
        ensures
            r@ == path_joined(
                path_joined(config_dir@, "core"@),
                if windows {
                    "mihomo.exe"@
                } else {
                    "mihomo"@
                },
            ),
    {
        let dir = Self::core_dir(config_dir);
        let name = if windows {
            "mihomo.exe"
        } else {
            "mihomo"
        };
        join_path(dir.as_str(), name)
    }

    /// The core path a new configuration names: the binary's path, or ""
    /// when there is no config directory.
    pub fn default_core_path(config_dir: Option<&str>, windows: bool) -> (r: String)
        ensures
            config_dir matches Some(d) ==> r@ == path_joined(
                path_joined(d@, "core"@),
                if windows {
                    "mihomo.exe"@
                } else {
                    "mihomo"@
                },
            ),
            config_dir is None ==> r@ == Seq::<char>::empty(),
    {
        match config_dir {
            Some(d) => Self::core_binary_path(d, windows),
            None => String::new(),
        }
    }

    /// The file a subscription's configuration is saved in:
    /// `sub_<sanitized name>.yaml`.
    pub fn subscription_file_name(name: &str) -> (r: String)
        ensures
            r@ == "sub_"@ + sanitize_spec(name@) + ".yaml"@,
    {
        let mut v: Vec<char> = Vec::new();
        push_str(&mut v, "sub_");
        let s = sanitize_name(name);
        push_str(&mut v, s.as_str());
        push_str(&mut v, ".yaml");
        string_from_chars(v.as_slice())
    }

    /// The subscriptions among the files of the core directory, given as
    /// file name and displayed path (see `sub_entries`).
    pub fn subscription_entries(files: &Vec<(String, String)>) -> (r: Vec<(String, String)>)
        ensures
            pairs_view(r@) == sub_entries(pairs_view(files@)),
    {
        proof {
            reveal_strlit("sub_");
            reveal_strlit(".yaml");
        }
        let mut r: Vec<(String, String)> = Vec::new();
        let mut i: usize = 0;
        while i < files.len()
            invariant
                0 <= i <= files@.len(),
                pairs_view(r@) == sub_entries(pairs_view(files@.subrange(0, i as int))),
            decreases files.len() - i,
        {
            let c = chars_of(files[i].0.as_str());
            proof {
                reveal_strlit("sub_");
                reveal_strlit(".yaml");
                assert(pairs_view(files@.subrange(0, i as int + 1)).drop_last() =~= pairs_view(
                    files@.subrange(0, i as int),
                ));
            }
            if starts_with_str(c.as_slice(), "sub_") && ends_with_str(c.as_slice(), ".yaml") {
                let stem = copy_range(c.as_slice(), 0, c.len() - 5);
                let name = strip_prefix_all_str(stem.as_slice(), "sub_");
                r.push((string_from_chars(name.as_slice()), files[i].1.clone()));
                assert(pairs_view(r@) =~= sub_entries(pairs_view(files@.subrange(0, i as int + 1))));
            }
            i = i + 1;
        }
        assert(files@.subrange(0, files@.len() as int) =~= files@);
        r
    }

    /// The main configuration for the subscriptions found (see
    /// `main_config`); `single` is the content of the one subscription file
    /// when there is exactly one.
    pub fn build_main_config(subs: &Vec<(String, String)>, single: Option<&str>) -> (r: String)
        requires
            subs@.len() == 1 ==> single is Some,
        ensures
            r@ == main_config(
                pairs_view(subs@),
                match single {
                    Some(c) => Some(c@),
                    None => None,
                },
            ),
    {
        if subs.len() == 0 {
            return owned("mixed-port: 7890\nallow-lan: true\nmode: rule\nlog-level: info\n");
        }
        if subs.len() == 1 {
            match single {
                Some(content) => {
                    let c = chars_of(content);
                    if contains_str(c.as_slice(), "port:") || contains_str(
                        c.as_slice(),
                        "mixed-port:",
                    ) {
                        let lines = text_lines(content);
                        proof {
                            assert(lines@.map_values(|l: String| l@) =~= text_lines_spec(
                                content@,
                            ));
                        }
                        return join_kept(&lines, false);
                    }
                },
                None => {},
            }
        }
        let mut v: Vec<char> = Vec::new();
        push_str(&mut v, "mixed-port: 7890\nallow-lan: true\nmode: rule\nlog-level: info\n\n");
        push_str(&mut v, "proxy-providers:\n");
        let ghost sv = pairs_view(subs@);
        let mut i: usize = 0;
        let ghost start = v@;
        while i < subs.len()
            invariant
                0 <= i <= subs@.len(),
                sv == pairs_view(subs@),
                v@ == start + provider_blocks(sv.subrange(0, i as int)),
            decreases subs.len() - i,
        {
            push_str(&mut v, "  ");
            push_str(&mut v, subs[i].0.as_str());
            push_str(&mut v, ":\n    type: file\n    path: ");
            push_str(&mut v, subs[i].1.as_str());
            push_str(
                &mut v,
                "\n    health-check:\n      enable: true\n      url: https://www.gstatic.com/generate_204\n      interval: 300\n\n",
            );
            proof {
                assert(sv.subrange(0, i as int + 1).drop_last() =~= sv.subrange(0, i as int));
            }
            i = i + 1;
        }
        assert(sv.subrange(0, subs@.len() as int) =~= sv);
        push_str(&mut v, "proxy-groups:\n");
        push_str(&mut v, "  - name: PROXY\n    type: select\n    proxies:\n");
        let ghost start2 = v@;
        let mut j: usize = 0;
        while j < subs.len()
            invariant
                0 <= j <= subs@.len(),
                sv == pairs_view(subs@),
                v@ == start2 + group_members(sv.subrange(0, j as int)),
            decreases subs.len() - j,
        {
            push_str(&mut v, "      - ");
            push_str(&mut v, subs[j].0.as_str());
            push_str(&mut v, "\n");
            proof {
                assert(sv.subrange(0, j as int + 1).drop_last() =~= sv.subrange(0, j as int));
            }
            j = j + 1;
        }
        push_str(&mut v, "      - DIRECT\n");
        push_str(&mut v, "\nrules:\n  - MATCH,PROXY\n");
        assert(v@ =~= merged_config(sv));
        string_from_chars(v.as_slice())
    }

    /// The configuration with its API controller at `host:port` (see
    /// `controlled_config`).
    pub fn with_api_controller(config: &str, host: &str, port: u16) -> (r: String)
        ensures
            r@ == controlled_config(config@, host@, port),
    {
        let lines = text_lines(config);
        proof {
            assert(lines@.map_values(|l: String| l@) =~= text_lines_spec(config@));
        }
        let body = join_kept(&lines, true);
        let mut v = chars_of(body.as_str());
        push_str(&mut v, "\nexternal-controller: ");
        push_str(&mut v, host);
        push_str(&mut v, ":");
        let p = u64_to_dec(port as u64);
        push_chars(&mut v, p.as_slice());
        push_str(&mut v, "\n");
        string_from_chars(v.as_slice())
    }
}

} // verus!
