//! Services from the output of `systemctl` and the unit files.
use vstd::prelude::*;

use crate::models::finding::opt_view;
use crate::models::system_info::{ServiceInfo, ServiceStartType, ServiceState};
use crate::platform::linux::proc::body_lines;
use crate::table::{find_key, key_index, keys_unique, upsert, value_of};
use crate::text::{
    ends_with, fields, fields_spec, has_prefix, has_suffix, lines, lines_spec, owned, slice_to_vec,
    starts_with, str_eq, to_chars, trim_end_str, trim_end_str_spec, trim_start_any,
    trim_start_any_spec, views, Sep,
};

verus! {

/// The start type that a unit-file state stands for.
pub open spec fn start_type_of_state(state: Seq<char>) -> ServiceStartType {
    if state == "enabled"@ || state == "enabled-runtime"@ {
        ServiceStartType::Automatic
    } else if state == "disabled"@ {
        ServiceStartType::Disabled
    } else if state == "static"@ || state == "indirect"@ || state == "alias"@ {
        ServiceStartType::Manual
    } else {
        ServiceStartType::Unknown
    }
}

/// The start type that a unit-file state stands for.
pub fn unit_start_type(state: &str) -> (r: ServiceStartType)
    ensures
        r == start_type_of_state(state@),
{
    if str_eq(state, "enabled") || str_eq(state, "enabled-runtime") {
        ServiceStartType::Automatic
    } else if str_eq(state, "disabled") {
        ServiceStartType::Disabled
    } else if str_eq(state, "static") || str_eq(state, "indirect") || str_eq(state, "alias") {
        ServiceStartType::Manual
    } else {
        ServiceStartType::Unknown
    }
}

/// A unit name without its `.service` suffixes.
pub open spec fn service_name(unit: Seq<char>) -> Seq<char> {
    trim_end_str_spec(unit, ".service"@)
}

fn service_name_of(unit: &[char]) -> (r: String)
    ensures
        r@ == service_name(unit@),
{
    let suffix = to_chars(".service");
    let n = trim_end_str(unit, suffix.as_slice());
    crate::text::from_chars(n.as_slice())
}

/// The start type that the lines of `systemctl list-unit-files` (after its
/// header) give a service: that of its last line with at least two fields.
pub open spec fn unit_state_of(ls: Seq<Seq<char>>, name: Seq<char>) -> Option<ServiceStartType>
    decreases ls.len(),
{
    if ls.len() == 0 {
        None
    } else {
        let parts = fields_spec(ls.last(), Sep::Whitespace);
        if parts.len() >= 2 && service_name(parts[0]) == name {
            Some(start_type_of_state(parts[1]))
        } else {
            unit_state_of(ls.drop_last(), name)
        }
    }
}

/// The start type of each service in the output of
/// `systemctl list-unit-files --type=service`, each service once.
pub fn collect_unit_file_states(output: &str) -> (r: Vec<(String, ServiceStartType)>)
    ensures
        keys_unique(r@),
        forall|name: Seq<char>| #[trigger] value_of(r@, name) == unit_state_of(body_lines(output@), name),
{
    let chars = to_chars(output);
    let ls = lines(chars.as_slice());
    let ghost all = views(ls@);
    let ghost body = body_lines(output@);
    let mut t: Vec<(String, ServiceStartType)> = Vec::new();
    if ls.len() == 0 {
        return t;
    }
    assert(body =~= all.drop_first());
    let mut i: usize = 1;
    while i < ls.len()
        invariant
            1 <= i <= ls.len(),
            all == views(ls@),
            body == all.drop_first(),
            keys_unique(t@),
            forall|name: Seq<char>| #[trigger] value_of(t@, name) == unit_state_of(body.take(i - 1), name),
        decreases ls.len() - i,
    {
        proof {
            assert(body.take(i as int).drop_last() =~= body.take(i - 1));
            assert(body.take(i as int).last() == ls@[i as int]@);
        }
        let parts = fields(ls[i].as_slice(), &Sep::Whitespace);
        let ghost ps = views(parts@);
        if parts.len() >= 2 {
            assert(ps[0] == parts@[0]@ && ps[1] == parts@[1]@);
            let name = service_name_of(parts[0].as_slice());
            let state = crate::text::from_chars(parts[1].as_slice());
            let st = unit_start_type(state.as_str());
            let ghost before = t@;
            let ghost nv = name;
            upsert(&mut t, name, st);
            proof {
                crate::table::lemma_upsert_keeps_unique(before, nv, st);
                assert forall|q: Seq<char>| #[trigger] value_of(t@, q) == unit_state_of(body.take(i as int), q) by {
                    crate::table::lemma_upsert_then_lookup(before, nv, st, q);
                    if q != nv@ {
                        assert(value_of(before, q) == unit_state_of(body.take(i - 1), q));
                    }
                }
            }
        }
        i = i + 1;
    }
    assert(body.take(ls.len() - 1) =~= body);
    t
}

/// The characters that may prefix the command of `ExecStart=`.
pub open spec fn exec_prefix_flags() -> Seq<char> {
    seq!['@', '-', ':', '!', '+']
}

/// The binary that a unit file starts: on the first line that begins with
/// `ExecStart=`, the first word after the prefix flags, unless there is
/// none or it is `-`.
pub open spec fn exec_start_binary_spec(ls: Seq<Seq<char>>) -> Option<Seq<char>>
    decreases ls.len(),
{
    if ls.len() == 0 {
        None
    } else if has_prefix(ls[0], "ExecStart="@) {
        let cmd = trim_start_any_spec(ls[0].skip(10), exec_prefix_flags());
        let words = fields_spec(cmd, Sep::Whitespace);
        if words.len() > 0 && words[0].len() > 0 && words[0] != "-"@ {
            Some(words[0])
        } else {
            None
        }
    } else {
        exec_start_binary_spec(ls.drop_first())
    }
}

/// The binary that a unit file's `ExecStart=` line starts.
pub fn exec_start_binary(unit_file: &str) -> (r: Option<String>)
    ensures
        opt_view(r) == exec_start_binary_spec(lines_spec(unit_file@)),
{
    let chars = to_chars(unit_file);
    let ls = lines(chars.as_slice());
    let ghost all = views(ls@);
    let prefix = to_chars("ExecStart=");
    let flags: [char; 5] = ['@', '-', ':', '!', '+'];
    assert(flags@ =~= exec_prefix_flags());
    let mut i: usize = 0;
    assert(all.skip(0) =~= all);
    while i < ls.len()
        invariant
            i <= ls.len(),
            all == views(ls@),
            prefix@ == "ExecStart="@,
            flags@ == exec_prefix_flags(),
            all == lines_spec(unit_file@),
            exec_start_binary_spec(all) == exec_start_binary_spec(all.skip(i as int)),
        decreases ls.len() - i,
    {
        assert(all.skip(i as int)[0] == ls@[i as int]@);
        if starts_with(ls[i].as_slice(), prefix.as_slice()) {
            proof {
                reveal_strlit("ExecStart=");
            }
            let rest = slice_to_vec(ls[i].as_slice(), 10, ls[i].len());
            assert(rest@ =~= ls@[i as int]@.skip(10));
            let cmd = trim_start_any(rest.as_slice(), flags.as_slice());
            let words = fields(cmd.as_slice(), &Sep::Whitespace);
            let ghost ws = views(words@);
            if words.len() > 0 {
                assert(ws[0] == words@[0]@);
                let w = crate::text::from_chars(words[0].as_slice());
                if words[0].len() > 0 && !str_eq(w.as_str(), "-") {
                    return Some(w);
                }
            }
            return None;
        }
        assert(all.skip(i as int).drop_first() =~= all.skip(i + 1));
        i = i + 1;
    }
    None
}

/// The unit that a file of a systemd unit directory names, where its data
/// is still wanted: for a file name ending in `.service`, the name without
/// every trailing `.service`, unless `paths` already holds that unit (the
/// directory listed first wins).
pub open spec fn wanted_unit_name_spec(paths: Seq<(String, String)>, file_name: Seq<char>) -> Option<Seq<char>> {
    if has_suffix(file_name, ".service"@) {
        let name = trim_end_str_spec(file_name, ".service"@);
        if key_index(paths, name) is Some {
            None
        } else {
            Some(name)
        }
    } else {
        None
    }
}

/// The unit whose file `file_name` is still to be read (see
/// `wanted_unit_name_spec`).
pub fn wanted_unit_name(paths: &Vec<(String, String)>, file_name: &str) -> (r: Option<String>)
    ensures
        match r {
            Some(n) => wanted_unit_name_spec(paths@, file_name@) == Some(n@),
            None => wanted_unit_name_spec(paths@, file_name@) is None,
        },
{
    let f = to_chars(file_name);
    let suffix = to_chars(".service");
    if !ends_with(f.as_slice(), suffix.as_slice()) {
        return None;
    }
    let name_chars = trim_end_str(f.as_slice(), suffix.as_slice());
    let name = crate::text::from_chars(name_chars.as_slice());
    match find_key(paths, name.as_str()) {
        Some(_) => None,
        None => Some(name),
    }
}

/// Records the binary of a service from its unit file, where it names one.
pub fn add_binary_path(paths: &mut Vec<(String, String)>, name: &str, unit_file: &str)
    ensures
        match exec_start_binary_spec(lines_spec(unit_file@)) {
            Some(b) => final(paths)@.len() >= 1 && keys_unique(old(paths)@) ==> (
                crate::models::system_info::lookup_spec(final(paths)@, name@) == Some(b)
                && keys_unique(final(paths)@)),
            None => final(paths)@ == old(paths)@,
        },
        forall|q: Seq<char>|
            q != name@ && keys_unique(old(paths)@) ==> #[trigger] crate::models::system_info::lookup_spec(
                final(paths)@,
                q,
            ) == crate::models::system_info::lookup_spec(old(paths)@, q),
{
    match exec_start_binary(unit_file) {
        Some(b) => {
            let key = owned(name);
            let ghost before = paths@;
            let ghost kv = key;
            let ghost bv = b;
            upsert(paths, key, b);
            proof {
                if keys_unique(before) {
                    crate::table::lemma_upsert_keeps_unique(before, kv, bv);
                    crate::table::lemma_upsert_then_lookup(before, kv, bv, name@);
                    assert forall|q: Seq<char>| q != name@ implies #[trigger] crate::models::system_info::lookup_spec(
                        paths@,
                        q,
                    ) == crate::models::system_info::lookup_spec(before, q) by {
                        crate::table::lemma_upsert_then_lookup(before, kv, bv, q);
                    }
                }
            }
        },
        None => {},
    }
}

/// The run state that a systemd sub-state stands for.
pub open spec fn state_of_sub(sub: Seq<char>) -> ServiceState {
    if sub == "running"@ {
        ServiceState::Running
    } else if sub == "exited"@ || sub == "dead"@ || sub == "failed"@ {
        ServiceState::Stopped
    } else {
        ServiceState::Unknown
    }
}

/// Whether a line of `systemctl list-units` describes a service: at least
/// four fields, the first a `.service` unit, the load state not `not-found`.
pub open spec fn unit_line_ok(line: Seq<char>) -> bool {
    let parts = fields_spec(line, Sep::Whitespace);
    parts.len() >= 4 && has_suffix(parts[0], ".service"@) && parts[1] != "not-found"@
}

/// The service name of a good line of `systemctl list-units`.
pub open spec fn unit_line_name(line: Seq<char>) -> Seq<char> {
    service_name(fields_spec(line, Sep::Whitespace)[0])
}

/// Whether `s` is the service that a good line of `systemctl list-units`
/// describes, given the start type and binary found for it elsewhere.
pub open spec fn describes_unit(
    s: ServiceInfo,
    line: Seq<char>,
    start_type: Option<ServiceStartType>,
    binary: Option<Seq<char>>,
) -> bool {
    let parts = fields_spec(line, Sep::Whitespace);
    let name = service_name(parts[0]);
    &&& s.name@ == name
    &&& s.display_name@ == name
    &&& s.state == state_of_sub(parts[3])
    &&& s.start_type == match start_type {
        Some(t) => t,
        None => ServiceStartType::Unknown,
    }
    &&& opt_view(s.binary_path) == binary
    &&& s.run_as_account is None
    &&& s.description is None
    &&& !s.weak_permissions
    &&& !s.unquoted_path
}

/// The good lines of `systemctl list-units` output after its header.
pub open spec fn unit_lines(ls: Seq<Seq<char>>) -> Seq<Seq<char>>
    decreases ls.len(),
{
    if ls.len() == 0 {
        Seq::empty()
    } else if unit_line_ok(ls.last()) {
        unit_lines(ls.drop_last()).push(ls.last())
    } else {
        unit_lines(ls.drop_last())
    }
}

fn parse_unit_line(
    line: &[char],
    start_types: &Vec<(String, ServiceStartType)>,
    binary_paths: &Vec<(String, String)>,
) -> (r: Option<ServiceInfo>)
    ensures
        match r {
            Some(s) => unit_line_ok(line@) && describes_unit(
                s,
                line@,
                value_of(start_types@, unit_line_name(line@)),
                crate::models::system_info::lookup_spec(binary_paths@, unit_line_name(line@)),
            ),
            None => !unit_line_ok(line@),
        },
{
    let parts = fields(line, &Sep::Whitespace);
    let ghost ps = views(parts@);
    if parts.len() < 4 {
        return None;
    }
    assert(ps[0] == parts@[0]@ && ps[1] == parts@[1]@ && ps[3] == parts@[3]@);
    let suffix = to_chars(".service");
    if !ends_with(parts[0].as_slice(), suffix.as_slice()) {
        return None;
    }
    let name = service_name_of(parts[0].as_slice());
    let load = crate::text::from_chars(parts[1].as_slice());
    if str_eq(load.as_str(), "not-found") {
        return None;
    }
    let sub = crate::text::from_chars(parts[3].as_slice());
    let state = if str_eq(sub.as_str(), "running") {
        ServiceState::Running
    } else if str_eq(sub.as_str(), "exited") || str_eq(sub.as_str(), "dead") || str_eq(
        sub.as_str(),
        "failed",
    ) {
        ServiceState::Stopped
    } else {
        ServiceState::Unknown
    };
    let start_type = match find_key(start_types, name.as_str()) {
        Some(k) => start_types[k].1,
        None => ServiceStartType::Unknown,
    };
    let binary_path = match crate::models::system_info::lookup(binary_paths, name.as_str()) {
        Some(b) => Some(owned(b.as_str())),
        None => None,
    };
    Some(
        ServiceInfo {
            name: owned(name.as_str()),
            display_name: name,
            state,
            start_type,
            binary_path,
            run_as_account: None,
            description: None,
            weak_permissions: false,
            unquoted_path: false,
        },
    )
}

/// The services listed by `systemctl list-units --type=service --all
/// --plain`, in order, with their start types and binaries.
pub fn parse_systemctl_output(
    output: &str,
    start_types: &Vec<(String, ServiceStartType)>,
    binary_paths: &Vec<(String, String)>,
) -> (r: Vec<ServiceInfo>)
    ensures
        r@.len() == unit_lines(body_lines(output@)).len(),
        forall|k: int|
            0 <= k < r@.len() ==> describes_unit(
                #[trigger] r@[k],
                unit_lines(body_lines(output@))[k],
                value_of(start_types@, unit_line_name(unit_lines(body_lines(output@))[k])),
                crate::models::system_info::lookup_spec(
                    binary_paths@,
                    unit_line_name(unit_lines(body_lines(output@))[k]),
                ),
            ),
{
    let chars = to_chars(output);
    let ls = lines(chars.as_slice());
    let ghost all = views(ls@);
    let ghost body = body_lines(output@);
    let mut out: Vec<ServiceInfo> = Vec::new();
    if ls.len() == 0 {
        return out;
    }
    assert(body =~= all.drop_first());
    let mut i: usize = 1;
    while i < ls.len()
        invariant
            1 <= i <= ls.len(),
            all == views(ls@),
            body == all.drop_first(),
            out@.len() == unit_lines(body.take(i - 1)).len(),
            forall|k: int|
                0 <= k < out@.len() ==> describes_unit(
                    #[trigger] out@[k],
                    unit_lines(body.take(i - 1))[k],
                    value_of(start_types@, unit_line_name(unit_lines(body.take(i - 1))[k])),
                    crate::models::system_info::lookup_spec(
                        binary_paths@,
                        unit_line_name(unit_lines(body.take(i - 1))[k]),
                    ),
                ),
        decreases ls.len() - i,
    {
        proof {
            assert(body.take(i as int).drop_last() =~= body.take(i - 1));
            assert(body.take(i as int).last() == ls@[i as int]@);
        }
        match parse_unit_line(ls[i].as_slice(), start_types, binary_paths) {
            Some(s) => {
                out.push(s);
            },
            None => {},
        }
        i = i + 1;
    }
    assert(body.take(ls.len() - 1) =~= body);
    out
}

} // verus!
