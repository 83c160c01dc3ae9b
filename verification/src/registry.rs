//! The registry entries that make the `tel:` link handler known to Windows,
//! as the argument lists of `reg add` calls.
use vstd::prelude::*;
use crate::text::{concat, owned};

verus! {

/// The arguments of one `reg add` call that sets value `name` (the default
/// value when `None`) of `key` to `data`, overwriting without asking.
pub open spec fn reg_add(key: Seq<char>, name: Option<Seq<char>>, data: Seq<char>) -> Seq<
    Seq<char>,
> {
    match name {
        None => seq!["add"@, key, "/ve"@, "/d"@, data, "/f"@],
        Some(n) => seq!["add"@, key, "/v"@, n, "/d"@, data, "/f"@],
    }
}

/// The command line Windows runs for a `tel:` link: the quoted handler path
/// followed by the quoted link.
pub open spec fn open_command(exe: Seq<char>) -> Seq<char> {
    "\""@ + exe + "\" \"%1\""@
}

/// All registrations, in order: the `4dyClient.tel` program id with its URL
/// protocol marker and open command, the application's capabilities and its
/// `tel` association, its entry among the registered applications, and, for
/// older Windows versions, the same three values directly under `tel`.
pub open spec fn tel_registration(exe: Seq<char>) -> Seq<Seq<Seq<char>>> {
    seq![
        reg_add("HKCU\\Software\\Classes\\4dyClient.tel"@, None, "URL:Tel Protocol"@),
        reg_add("HKCU\\Software\\Classes\\4dyClient.tel"@, Some("URL Protocol"@), ""@),
        reg_add("HKCU\\Software\\Classes\\4dyClient.tel\\shell\\open\\command"@, None, open_command(exe)),
        reg_add("HKCU\\Software\\4dyClient\\Capabilities"@, Some("ApplicationName"@), "4dy Client"@),
        reg_add(
            "HKCU\\Software\\4dyClient\\Capabilities"@,
            Some("ApplicationDescription"@),
            "4dy Custom Desktop Client"@,
        ),
        reg_add("HKCU\\Software\\4dyClient\\Capabilities\\URLAssociations"@, Some("tel"@), "4dyClient.tel"@),
        reg_add(
            "HKCU\\Software\\RegisteredApplications"@,
            Some("4dyClient"@),
            "Software\\4dyClient\\Capabilities"@,
        ),
        reg_add("HKCU\\Software\\Classes\\tel"@, None, "URL:Tel Protocol"@),
        reg_add("HKCU\\Software\\Classes\\tel"@, Some("URL Protocol"@), ""@),
        reg_add("HKCU\\Software\\Classes\\tel\\shell\\open\\command"@, None, open_command(exe)),
    ]
}

/// The view of argument lists.
pub open spec fn args_view(calls: Seq<Vec<String>>) -> Seq<Seq<Seq<char>>> {
    calls.map_values(|c: Vec<String>| c@.map_values(|a: String| a@))
}

/// The arguments of one `reg add` call (see `reg_add`).
fn reg_add_args(key: &str, name: Option<&str>, data: &str) -> (r: Vec<String>)
    ensures
        r@.map_values(|a: String| a@) == reg_add(
            key@,
            match name {
                Some(n) => Some(n@),
                None => None,
            },
            data@,
        ),
{
    let mut r: Vec<String> = Vec::new();
    r.push(owned("add"));
    r.push(owned(key));
    match name {
        None => {
            r.push(owned("/ve"));
        },
        Some(n) => {
            r.push(owned("/v"));
            r.push(owned(n));
        },
    }
    r.push(owned("/d"));
    r.push(owned(data));
    r.push(owned("/f"));
    assert(r@.map_values(|a: String| a@) =~= reg_add(
        key@,
        match name {
            Some(n) => Some(n@),
            None => None,
        },
        data@,
    ));
    r
}

/// The `reg add` argument lists that register `exe` as the `tel:` handler
/// (see `tel_registration`).
pub fn tel_handler_registration(exe: &str) -> (r: Vec<Vec<String>>)
    ensures
        args_view(r@) == tel_registration(exe@),
{
    let mut command = concat("\"", exe);
    command.append("\" \"%1\"");
    let mut r: Vec<Vec<String>> = Vec::new();
    r.push(reg_add_args("HKCU\\Software\\Classes\\4dyClient.tel", None, "URL:Tel Protocol"));
    r.push(reg_add_args("HKCU\\Software\\Classes\\4dyClient.tel", Some("URL Protocol"), ""));
    r.push(
        reg_add_args(
            "HKCU\\Software\\Classes\\4dyClient.tel\\shell\\open\\command",
            None,
            command.as_str(),
        ),
    );
    r.push(reg_add_args("HKCU\\Software\\4dyClient\\Capabilities", Some("ApplicationName"), "4dy Client"));
    r.push(
        reg_add_args(
            "HKCU\\Software\\4dyClient\\Capabilities",
            Some("ApplicationDescription"),
            "4dy Custom Desktop Client",
        ),
    );
    r.push(
        reg_add_args(
            "HKCU\\Software\\4dyClient\\Capabilities\\URLAssociations",
            Some("tel"),
            "4dyClient.tel",
        ),
    );
    r.push(
        reg_add_args(
            "HKCU\\Software\\RegisteredApplications",
            Some("4dyClient"),
            "Software\\4dyClient\\Capabilities",
        ),
    );
    r.push(reg_add_args("HKCU\\Software\\Classes\\tel", None, "URL:Tel Protocol"));
    r.push(reg_add_args("HKCU\\Software\\Classes\\tel", Some("URL Protocol"), ""));
    r.push(
        reg_add_args("HKCU\\Software\\Classes\\tel\\shell\\open\\command", None, command.as_str()),
    );
    assert(args_view(r@) =~= tel_registration(exe@));
    r
}

/// The arguments that open the Windows default-apps settings afterwards.
pub fn default_apps_settings_args() -> (r: Vec<String>)
    ensures
        r@.map_values(|a: String| a@) == seq!["/C"@, "start"@, "ms-settings:defaultapps"@],
{
    let mut r: Vec<String> = Vec::new();
    r.push(owned("/C"));
    r.push(owned("start"));
    r.push(owned("ms-settings:defaultapps"));
    assert(r@.map_values(|a: String| a@) =~= seq!["/C"@, "start"@, "ms-settings:defaultapps"@]);
    r
}

/// The registration hangs together: the `tel` association names the program id
/// whose key the first call creates, the registered-applications entry points
/// at the capabilities key, and both open commands start the same handler.
pub proof fn law_registration_is_consistent(exe: Seq<char>)
    ensures
        "HKCU\\Software\\Classes\\"@ + tel_registration(exe)[5][5] == tel_registration(exe)[0][1],
        "HKCU\\"@ + tel_registration(exe)[6][5] == tel_registration(exe)[3][1],
        tel_registration(exe)[2][4] == tel_registration(exe)[9][4],
        tel_registration(exe)[2][4] == open_command(exe),
{
    reveal_strlit("HKCU\\Software\\Classes\\");
    reveal_strlit("4dyClient.tel");
    reveal_strlit("HKCU\\Software\\Classes\\4dyClient.tel");
    reveal_strlit("HKCU\\");
    reveal_strlit("Software\\4dyClient\\Capabilities");
    reveal_strlit("HKCU\\Software\\4dyClient\\Capabilities");
    assert("HKCU\\Software\\Classes\\"@ + "4dyClient.tel"@ =~= "HKCU\\Software\\Classes\\4dyClient.tel"@);
    assert("HKCU\\"@ + "Software\\4dyClient\\Capabilities"@ =~= "HKCU\\Software\\4dyClient\\Capabilities"@);
}

/// Each of the two `tel` registrations (the `4dyClient.tel` program id, calls 0
/// to 2, and the fallback directly under the protocol name, calls 7 to 9) is
/// whole: the first call sets the default value of the key, the second marks
/// that same key with the empty `URL Protocol` value, and the third sets the
/// open command of that key's `shell\open\command` subkey. The fallback key is
/// the class key of the protocol that the capabilities associate (`tel`).
pub proof fn law_tel_keys_are_complete(exe: Seq<char>)
    ensures
        ({
            let r = tel_registration(exe);
            &&& r.len() == 10
            &&& forall|b: int|
                #![trigger r[b]]
                b == 0 || b == 7 ==> {
                    &&& r[b][2] == "/ve"@
                    &&& r[b + 1][1] == r[b][1]
                    &&& r[b + 1][2] == "/v"@
                    &&& r[b + 1][3] == "URL Protocol"@
                    &&& r[b + 1][5] == ""@
                    &&& r[b + 2][1] == r[b][1] + "\\shell\\open\\command"@
                    &&& r[b + 2][2] == "/ve"@
                    &&& r[b + 2][4] == open_command(exe)
                }
            &&& r[7][1] == "HKCU\\Software\\Classes\\"@ + r[5][3]
        }),
{
    reveal_strlit("HKCU\\Software\\Classes\\");
    reveal_strlit("tel");
    reveal_strlit("HKCU\\Software\\Classes\\tel");
    reveal_strlit("HKCU\\Software\\Classes\\4dyClient.tel");
    reveal_strlit("\\shell\\open\\command");
    reveal_strlit("HKCU\\Software\\Classes\\4dyClient.tel\\shell\\open\\command");
    reveal_strlit("HKCU\\Software\\Classes\\tel\\shell\\open\\command");
    let r = tel_registration(exe);
    assert("HKCU\\Software\\Classes\\"@ + "tel"@ =~= "HKCU\\Software\\Classes\\tel"@);
    assert("HKCU\\Software\\Classes\\4dyClient.tel"@ + "\\shell\\open\\command"@
        =~= "HKCU\\Software\\Classes\\4dyClient.tel\\shell\\open\\command"@);
    assert("HKCU\\Software\\Classes\\tel"@ + "\\shell\\open\\command"@
        =~= "HKCU\\Software\\Classes\\tel\\shell\\open\\command"@);
}

} // verus!
