//! What the scanner knows about TCP ports: service names, categories,
//! severities, probes and remediation advice.
use vstd::prelude::*;
use crate::text::chars_of;

verus! {

/// A scan profile: which set of ports to test.
#[derive(Clone, Copy, PartialEq, Eq, Structural, Debug)]
pub enum ScanProfile {
    Light,
    Thorough,
}

impl ScanProfile {
    pub open spec fn text(self) -> Seq<char> {
        match self {
            ScanProfile::Light => "light"@,
            ScanProfile::Thorough => "thorough"@,
        }
    }

    /// The profile's name.
    pub fn as_str(&self) -> (s: &'static str)
        ensures
            s@ == self.text(),
    {
        match self {
            ScanProfile::Light => "light",
            ScanProfile::Thorough => "thorough",
        }
    }
}

/// The common ports of the light profile, in test order.
pub open spec fn light_ports() -> Seq<u16> {
    seq![
        22, 23, 53, 80, 135, 139, 443, 445, 631, 111, 1433, 1521, 2049, 2181, 3306, 5432, 5601,
        5672, 5984, 6379, 8086, 8080, 8443, 9092, 3389, 5900, 5985, 5986, 9200, 9100, 11211, 15672,
        27017,
    ]
}

/// The ports of the thorough profile, in test order.
pub open spec fn thorough_ports() -> Seq<u16> {
    seq![
        20, 21, 22, 23, 25, 53, 69, 80, 81, 88, 110, 111, 123, 135, 137, 138, 139, 143, 161, 162,
        389, 443, 445, 465, 500, 515, 548, 554, 587, 631, 636, 873, 902, 993, 995, 1025, 1080, 1099,
        1194, 1433, 1521, 1723, 1883, 1900, 2049, 2082, 2083, 2181, 2375, 2376, 2379, 2380, 3000,
        3128, 3268, 3269, 3306, 3389, 3478, 5000, 5001, 5060, 5061, 5353, 5357, 5432, 5601, 5672,
        5900, 5901, 5902, 5984, 5985, 5986, 6000, 6379, 6443, 6667, 7001, 7002, 8000, 8008, 8009,
        8080, 8081, 8086, 8181, 5555, 62078, 7000, 7100, 8060, 8443, 8530, 8531, 8883, 8888, 9000,
        9042, 9092, 9093, 9100, 9200, 9300, 9443, 9999, 10000, 10250, 11211, 15672, 27017, 50070,
    ]
}

/// The ports a profile tests.
pub open spec fn profile_ports(profile: ScanProfile) -> Seq<u16> {
    match profile {
        ScanProfile::Light => light_ports(),
        ScanProfile::Thorough => thorough_ports(),
    }
}

proof fn lemma_light_port_listed(k: int)
    requires
        0 <= k < light_ports().len(),
    ensures
        thorough_ports().contains(light_ports()[k]),
{
    if k == 0 {
        assert(thorough_ports()[2] == light_ports()[0]);
    } else if k == 1 {
        assert(thorough_ports()[3] == light_ports()[1]);
    } else if k == 2 {
        assert(thorough_ports()[5] == light_ports()[2]);
    } else if k == 3 {
        assert(thorough_ports()[7] == light_ports()[3]);
    } else if k == 4 {
        assert(thorough_ports()[13] == light_ports()[4]);
    } else if k == 5 {
        assert(thorough_ports()[16] == light_ports()[5]);
    } else if k == 6 {
        assert(thorough_ports()[21] == light_ports()[6]);
    } else if k == 7 {
        assert(thorough_ports()[22] == light_ports()[7]);
    } else if k == 8 {
        assert(thorough_ports()[29] == light_ports()[8]);
    } else if k == 9 {
        assert(thorough_ports()[11] == light_ports()[9]);
    } else if k == 10 {
        assert(thorough_ports()[39] == light_ports()[10]);
    } else if k == 11 {
        assert(thorough_ports()[40] == light_ports()[11]);
    } else if k == 12 {
        assert(thorough_ports()[44] == light_ports()[12]);
    } else if k == 13 {
        assert(thorough_ports()[47] == light_ports()[13]);
    } else if k == 14 {
        assert(thorough_ports()[56] == light_ports()[14]);
    } else if k == 15 {
        assert(thorough_ports()[65] == light_ports()[15]);
    } else if k == 16 {
        assert(thorough_ports()[66] == light_ports()[16]);
    } else if k == 17 {
        assert(thorough_ports()[67] == light_ports()[17]);
    } else if k == 18 {
        assert(thorough_ports()[71] == light_ports()[18]);
    } else if k == 19 {
        assert(thorough_ports()[75] == light_ports()[19]);
    } else if k == 20 {
        assert(thorough_ports()[85] == light_ports()[20]);
    } else if k == 21 {
        assert(thorough_ports()[83] == light_ports()[21]);
    } else if k == 22 {
        assert(thorough_ports()[92] == light_ports()[22]);
    } else if k == 23 {
        assert(thorough_ports()[99] == light_ports()[23]);
    } else if k == 24 {
        assert(thorough_ports()[57] == light_ports()[24]);
    } else if k == 25 {
        assert(thorough_ports()[68] == light_ports()[25]);
    } else if k == 26 {
        assert(thorough_ports()[72] == light_ports()[26]);
    } else if k == 27 {
        assert(thorough_ports()[73] == light_ports()[27]);
    } else if k == 28 {
        assert(thorough_ports()[102] == light_ports()[28]);
    } else if k == 29 {
        assert(thorough_ports()[101] == light_ports()[29]);
    } else if k == 30 {
        assert(thorough_ports()[108] == light_ports()[30]);
    } else if k == 31 {
        assert(thorough_ports()[109] == light_ports()[31]);
    } else if k == 32 {
        assert(thorough_ports()[110] == light_ports()[32]);
    }
}

/// The light profile tests fewer ports than the thorough one, all of them
/// among the thorough profile's ports.
pub proof fn lemma_light_within_thorough()
    ensures
        light_ports().len() < thorough_ports().len(),
        forall|k: int| 0 <= k < light_ports().len() ==> thorough_ports().contains(#[trigger] light_ports()[k]),
{
    assert forall|k: int| 0 <= k < light_ports().len() implies thorough_ports().contains(#[trigger] light_ports()[k]) by {
        lemma_light_port_listed(k);
    }
}

/// The thorough profile tests each of these ports (the light profile's
/// ports and the rest, such as Android Debug Bridge on 5555), and no more
/// entries than there are ports here.
pub proof fn lemma_thorough_ports_listed(port: u16)
    requires
        port == 20 || port == 21 || port == 22 || port == 23 || port == 25 || port == 53 ||
            port == 69 || port == 80 || port == 81 || port == 88 || port == 110 || port == 111 ||
            port == 123 || port == 135 || port == 137 || port == 138 || port == 139 ||
            port == 143 || port == 161 || port == 162 || port == 389 || port == 443 ||
            port == 445 || port == 465 || port == 500 || port == 515 || port == 548 ||
            port == 554 || port == 587 || port == 631 || port == 636 || port == 873 ||
            port == 902 || port == 993 || port == 995 || port == 1025 || port == 1080 ||
            port == 1099 || port == 1194 || port == 1433 || port == 1521 || port == 1723 ||
            port == 1883 || port == 1900 || port == 2049 || port == 2082 || port == 2083 ||
            port == 2181 || port == 2375 || port == 2376 || port == 2379 || port == 2380 ||
            port == 3000 || port == 3128 || port == 3268 || port == 3269 || port == 3306 ||
            port == 3389 || port == 3478 || port == 5000 || port == 5001 || port == 5060 ||
            port == 5061 || port == 5353 || port == 5357 || port == 5432 || port == 5601 ||
            port == 5672 || port == 5900 || port == 5901 || port == 5902 || port == 5984 ||
            port == 5985 || port == 5986 || port == 6000 || port == 6379 || port == 6443 ||
            port == 6667 || port == 7001 || port == 7002 || port == 8000 || port == 8008 ||
            port == 8009 || port == 8080 || port == 8081 || port == 8086 || port == 8181 ||
            port == 5555 || port == 62078 || port == 7000 || port == 7100 || port == 8060 ||
            port == 8443 || port == 8530 || port == 8531 || port == 8883 || port == 8888 ||
            port == 9000 || port == 9042 || port == 9092 || port == 9093 || port == 9100 ||
            port == 9200 || port == 9300 || port == 9443 || port == 9999 || port == 10000 ||
            port == 10250 || port == 11211 || port == 15672 || port == 27017 || port == 50070,
    ensures
        thorough_ports().contains(port),
        thorough_ports().len() == 112,
{
    if port == 20 {
        assert(thorough_ports()[0] == port);
    } else if port == 21 {
        assert(thorough_ports()[1] == port);
    } else if port == 22 {
        assert(thorough_ports()[2] == port);
    } else if port == 23 {
        assert(thorough_ports()[3] == port);
    } else if port == 25 {
        assert(thorough_ports()[4] == port);
    } else if port == 53 {
        assert(thorough_ports()[5] == port);
    } else if port == 69 {
        assert(thorough_ports()[6] == port);
    } else if port == 80 {
        assert(thorough_ports()[7] == port);
    } else if port == 81 {
        assert(thorough_ports()[8] == port);
    } else if port == 88 {
        assert(thorough_ports()[9] == port);
    } else if port == 110 {
        assert(thorough_ports()[10] == port);
    } else if port == 111 {
        assert(thorough_ports()[11] == port);
    } else if port == 123 {
        assert(thorough_ports()[12] == port);
    } else if port == 135 {
        assert(thorough_ports()[13] == port);
    } else if port == 137 {
        assert(thorough_ports()[14] == port);
    } else if port == 138 {
        assert(thorough_ports()[15] == port);
    } else if port == 139 {
        assert(thorough_ports()[16] == port);
    } else if port == 143 {
        assert(thorough_ports()[17] == port);
    } else if port == 161 {
        assert(thorough_ports()[18] == port);
    } else if port == 162 {
        assert(thorough_ports()[19] == port);
    } else if port == 389 {
        assert(thorough_ports()[20] == port);
    } else if port == 443 {
        assert(thorough_ports()[21] == port);
    } else if port == 445 {
        assert(thorough_ports()[22] == port);
    } else if port == 465 {
        assert(thorough_ports()[23] == port);
    } else if port == 500 {
        assert(thorough_ports()[24] == port);
    } else if port == 515 {
        assert(thorough_ports()[25] == port);
    } else if port == 548 {
        assert(thorough_ports()[26] == port);
    } else if port == 554 {
        assert(thorough_ports()[27] == port);
    } else if port == 587 {
        assert(thorough_ports()[28] == port);
    } else if port == 631 {
        assert(thorough_ports()[29] == port);
    } else if port == 636 {
        assert(thorough_ports()[30] == port);
    } else if port == 873 {
        assert(thorough_ports()[31] == port);
    } else if port == 902 {
        assert(thorough_ports()[32] == port);
    } else if port == 993 {
        assert(thorough_ports()[33] == port);
    } else if port == 995 {
        assert(thorough_ports()[34] == port);
    } else if port == 1025 {
        assert(thorough_ports()[35] == port);
    } else if port == 1080 {
        assert(thorough_ports()[36] == port);
    } else if port == 1099 {
        assert(thorough_ports()[37] == port);
    } else if port == 1194 {
        assert(thorough_ports()[38] == port);
    } else if port == 1433 {
        assert(thorough_ports()[39] == port);
    } else if port == 1521 {
        assert(thorough_ports()[40] == port);
    } else if port == 1723 {
        assert(thorough_ports()[41] == port);
    } else if port == 1883 {
        assert(thorough_ports()[42] == port);
    } else if port == 1900 {
        assert(thorough_ports()[43] == port);
    } else if port == 2049 {
        assert(thorough_ports()[44] == port);
    } else if port == 2082 {
        assert(thorough_ports()[45] == port);
    } else if port == 2083 {
        assert(thorough_ports()[46] == port);
    } else if port == 2181 {
        assert(thorough_ports()[47] == port);
    } else if port == 2375 {
        assert(thorough_ports()[48] == port);
    } else if port == 2376 {
        assert(thorough_ports()[49] == port);
    } else if port == 2379 {
        assert(thorough_ports()[50] == port);
    } else if port == 2380 {
        assert(thorough_ports()[51] == port);
    } else if port == 3000 {
        assert(thorough_ports()[52] == port);
    } else if port == 3128 {
        assert(thorough_ports()[53] == port);
    } else if port == 3268 {
        assert(thorough_ports()[54] == port);
    } else if port == 3269 {
        assert(thorough_ports()[55] == port);
    } else if port == 3306 {
        assert(thorough_ports()[56] == port);
    } else if port == 3389 {
        assert(thorough_ports()[57] == port);
    } else if port == 3478 {
        assert(thorough_ports()[58] == port);
    } else if port == 5000 {
        assert(thorough_ports()[59] == port);
    } else if port == 5001 {
        assert(thorough_ports()[60] == port);
    } else if port == 5060 {
        assert(thorough_ports()[61] == port);
    } else if port == 5061 {
        assert(thorough_ports()[62] == port);
    } else if port == 5353 {
        assert(thorough_ports()[63] == port);
    } else if port == 5357 {
        assert(thorough_ports()[64] == port);
    } else if port == 5432 {
        assert(thorough_ports()[65] == port);
    } else if port == 5601 {
        assert(thorough_ports()[66] == port);
    } else if port == 5672 {
        assert(thorough_ports()[67] == port);
    } else if port == 5900 {
        assert(thorough_ports()[68] == port);
    } else if port == 5901 {
        assert(thorough_ports()[69] == port);
    } else if port == 5902 {
        assert(thorough_ports()[70] == port);
    } else if port == 5984 {
        assert(thorough_ports()[71] == port);
    } else if port == 5985 {
        assert(thorough_ports()[72] == port);
    } else if port == 5986 {
        assert(thorough_ports()[73] == port);
    } else if port == 6000 {
        assert(thorough_ports()[74] == port);
    } else if port == 6379 {
        assert(thorough_ports()[75] == port);
    } else if port == 6443 {
        assert(thorough_ports()[76] == port);
    } else if port == 6667 {
        assert(thorough_ports()[77] == port);
    } else if port == 7001 {
        assert(thorough_ports()[78] == port);
    } else if port == 7002 {
        assert(thorough_ports()[79] == port);
    } else if port == 8000 {
        assert(thorough_ports()[80] == port);
    } else if port == 8008 {
        assert(thorough_ports()[81] == port);
    } else if port == 8009 {
        assert(thorough_ports()[82] == port);
    } else if port == 8080 {
        assert(thorough_ports()[83] == port);
    } else if port == 8081 {
        assert(thorough_ports()[84] == port);
    } else if port == 8086 {
        assert(thorough_ports()[85] == port);
    } else if port == 8181 {
        assert(thorough_ports()[86] == port);
    } else if port == 5555 {
        assert(thorough_ports()[87] == port);
    } else if port == 62078 {
        assert(thorough_ports()[88] == port);
    } else if port == 7000 {
        assert(thorough_ports()[89] == port);
    } else if port == 7100 {
        assert(thorough_ports()[90] == port);
    } else if port == 8060 {
        assert(thorough_ports()[91] == port);
    } else if port == 8443 {
        assert(thorough_ports()[92] == port);
    } else if port == 8530 {
        assert(thorough_ports()[93] == port);
    } else if port == 8531 {
        assert(thorough_ports()[94] == port);
    } else if port == 8883 {
        assert(thorough_ports()[95] == port);
    } else if port == 8888 {
        assert(thorough_ports()[96] == port);
    } else if port == 9000 {
        assert(thorough_ports()[97] == port);
    } else if port == 9042 {
        assert(thorough_ports()[98] == port);
    } else if port == 9092 {
        assert(thorough_ports()[99] == port);
    } else if port == 9093 {
        assert(thorough_ports()[100] == port);
    } else if port == 9100 {
        assert(thorough_ports()[101] == port);
    } else if port == 9200 {
        assert(thorough_ports()[102] == port);
    } else if port == 9300 {
        assert(thorough_ports()[103] == port);
    } else if port == 9443 {
        assert(thorough_ports()[104] == port);
    } else if port == 9999 {
        assert(thorough_ports()[105] == port);
    } else if port == 10000 {
        assert(thorough_ports()[106] == port);
    } else if port == 10250 {
        assert(thorough_ports()[107] == port);
    } else if port == 11211 {
        assert(thorough_ports()[108] == port);
    } else if port == 15672 {
        assert(thorough_ports()[109] == port);
    } else if port == 27017 {
        assert(thorough_ports()[110] == port);
    } else if port == 50070 {
        assert(thorough_ports()[111] == port);
    }
}

/// The profile that a name selects, if any.
pub open spec fn profile_named(name: Seq<char>) -> Option<ScanProfile> {
    if name == "light"@ {
        Some(ScanProfile::Light)
    } else if name == "thorough"@ {
        Some(ScanProfile::Thorough)
    } else {
        None
    }
}

/// Whether two texts are equal.
pub fn same_text(a: &str, b: &str) -> (r: bool)
    ensures
        r == (a@ == b@),
{
    let x = chars_of(a);
    let y = chars_of(b);
    if x.len() != y.len() {
        return false;
    }
    let mut i: usize = 0;
    while i < x.len()
        invariant
            x@ == a@,
            y@ == b@,
            x.len() == y.len(),
            i <= x.len(),
            forall|j: int| 0 <= j < i ==> x@[j] == y@[j],
        decreases x.len() - i,
    {
        if x[i] != y[i] {
            return false;
        }
        i += 1;
    }
    assert(x@ =~= y@);
    true
}

/// The profile that a name selects.
pub fn profile_from_name(name: &str) -> (r: Option<ScanProfile>)
    ensures
        r == profile_named(name@),
{
    if same_text(name, "light") {
        Some(ScanProfile::Light)
    } else if same_text(name, "thorough") {
        Some(ScanProfile::Thorough)
    } else {
        None
    }
}

/// The ports of a profile.
pub fn ports_of(profile: ScanProfile) -> (ports: Vec<u16>)
    ensures
        ports@ == profile_ports(profile),
{
    match profile {
        ScanProfile::Light => {
            let v: Vec<u16> = vec![
                22, 23, 53, 80, 135, 139, 443, 445, 631, 111, 1433, 1521, 2049, 2181, 3306, 5432,
                5601, 5672, 5984, 6379, 8086, 8080, 8443, 9092, 3389, 5900, 5985, 5986, 9200, 9100,
                11211, 15672, 27017,
            ];
            assert(v@ =~= light_ports());
            v
        },
        ScanProfile::Thorough => {
            let v: Vec<u16> = vec![
                20, 21, 22, 23, 25, 53, 69, 80, 81, 88, 110, 111, 123, 135, 137, 138, 139, 143,
                161, 162, 389, 443, 445, 465, 500, 515, 548, 554, 587, 631, 636, 873, 902, 993, 995,
                1025, 1080, 1099, 1194, 1433, 1521, 1723, 1883, 1900, 2049, 2082, 2083, 2181, 2375,
                2376, 2379, 2380, 3000, 3128, 3268, 3269, 3306, 3389, 3478, 5000, 5001, 5060, 5061,
                5353, 5357, 5432, 5601, 5672, 5900, 5901, 5902, 5984, 5985, 5986, 6000, 6379, 6443,
                6667, 7001, 7002, 8000, 8008, 8009, 8080, 8081, 8086, 8181, 5555, 62078, 7000, 7100,
                8060, 8443, 8530, 8531, 8883, 8888, 9000, 9042, 9092, 9093, 9100, 9200, 9300, 9443,
                9999, 10000, 10250, 11211, 15672, 27017, 50070,
            ];
            assert(v@ =~= thorough_ports());
            v
        },
    }
}

/// The ports of the profile named `profile` (`light` or `thorough`).
pub fn ports_for_profile(profile: &str) -> (r: Option<Vec<u16>>)
    ensures
        match profile_named(profile@) {
            Some(p) => r matches Some(ports) && ports@ == profile_ports(p),
            None => r is None,
        },
{
    match profile_from_name(profile) {
        Some(p) => Some(ports_of(p)),
        None => None,
    }
}

/// The broad kind of service on a port.
#[derive(Clone, Copy, PartialEq, Eq, Structural, Debug)]
pub enum ServiceCategory {
    DatabaseOrDatastore,
    MessageQueueOrCoordination,
    FileSharingOrRpc,
    RemoteAccessOrManagement,
    WebAdminOrDeviceService,
    MailService,
    IdentityOrDirectory,
    NetworkService,
    Unknown,
}

impl ServiceCategory {
    pub open spec fn text(self) -> Seq<char> {
        match self {
            ServiceCategory::DatabaseOrDatastore => "database_or_datastore"@,
            ServiceCategory::MessageQueueOrCoordination => "message_queue_or_coordination"@,
            ServiceCategory::FileSharingOrRpc => "file_sharing_or_rpc"@,
            ServiceCategory::RemoteAccessOrManagement => "remote_access_or_management"@,
            ServiceCategory::WebAdminOrDeviceService => "web_admin_or_device_service"@,
            ServiceCategory::MailService => "mail_service"@,
            ServiceCategory::IdentityOrDirectory => "identity_or_directory"@,
            ServiceCategory::NetworkService => "network_service"@,
            ServiceCategory::Unknown => "unknown"@,
        }
    }

    /// The category's label.
    pub fn as_str(&self) -> (s: &'static str)
        ensures
            s@ == self.text(),
    {
        match self {
            ServiceCategory::DatabaseOrDatastore => "database_or_datastore",
            ServiceCategory::MessageQueueOrCoordination => "message_queue_or_coordination",
            ServiceCategory::FileSharingOrRpc => "file_sharing_or_rpc",
            ServiceCategory::RemoteAccessOrManagement => "remote_access_or_management",
            ServiceCategory::WebAdminOrDeviceService => "web_admin_or_device_service",
            ServiceCategory::MailService => "mail_service",
            ServiceCategory::IdentityOrDirectory => "identity_or_directory",
            ServiceCategory::NetworkService => "network_service",
            ServiceCategory::Unknown => "unknown",
        }
    }
}

/// The category of the service on a port.
pub open spec fn category_of(port: u16) -> ServiceCategory {
    match port {
        1433 | 1521 | 3306 | 5432 | 5984 | 6379 | 8086 | 9042 | 9200 | 9300 | 11211 | 27017 => {
            ServiceCategory::DatabaseOrDatastore
        },
        2181 | 2379 | 2380 | 5672 | 8883 | 9092 | 9093 | 15672 => {
            ServiceCategory::MessageQueueOrCoordination
        },
        20 | 21 | 111 | 135 | 137 | 138 | 139 | 445 | 548 | 873 | 2049 => {
            ServiceCategory::FileSharingOrRpc
        },
        22 | 23 | 902 | 1194 | 1723 | 2375 | 2376 | 3389 | 5555 | 5900 | 5901 | 5902 | 5985 | 5986
        | 6443 | 10250 => ServiceCategory::RemoteAccessOrManagement,
        80 | 81 | 443 | 554 | 5601 | 631 | 2082 | 2083 | 3000 | 5000 | 5001 | 5357 | 7000 | 7001
        | 7002 | 7100 | 8000 | 8008 | 8009 | 8060 | 8080 | 8081 | 8181 | 8443 | 8530 | 8531 | 8888
        | 9000 | 9100 | 9443 | 9999 | 10000 | 50070 | 62078 => {
            ServiceCategory::WebAdminOrDeviceService
        },
        25 | 110 | 143 | 465 | 587 | 993 | 995 => ServiceCategory::MailService,
        88 | 389 | 636 | 3268 | 3269 => ServiceCategory::IdentityOrDirectory,
        53 | 69 | 123 | 161 | 162 | 500 | 1883 | 1900 | 3128 | 3478 | 5060 | 5061 | 5353 | 6667 => {
            ServiceCategory::NetworkService
        },
        _ => ServiceCategory::Unknown,
    }
}

/// The category of the service on a port.
pub fn service_category(port: u16) -> (c: ServiceCategory)
    ensures
        c == category_of(port),
{
    match port {
        1433 | 1521 | 3306 | 5432 | 5984 | 6379 | 8086 | 9042 | 9200 | 9300 | 11211 | 27017 => {
            ServiceCategory::DatabaseOrDatastore
        },
        2181 | 2379 | 2380 | 5672 | 8883 | 9092 | 9093 | 15672 => {
            ServiceCategory::MessageQueueOrCoordination
        },
        20 | 21 | 111 | 135 | 137 | 138 | 139 | 445 | 548 | 873 | 2049 => {
            ServiceCategory::FileSharingOrRpc
        },
        22 | 23 | 902 | 1194 | 1723 | 2375 | 2376 | 3389 | 5555 | 5900 | 5901 | 5902 | 5985 | 5986
        | 6443 | 10250 => ServiceCategory::RemoteAccessOrManagement,
        80 | 81 | 443 | 554 | 5601 | 631 | 2082 | 2083 | 3000 | 5000 | 5001 | 5357 | 7000 | 7001
        | 7002 | 7100 | 8000 | 8008 | 8009 | 8060 | 8080 | 8081 | 8181 | 8443 | 8530 | 8531 | 8888
        | 9000 | 9100 | 9443 | 9999 | 10000 | 50070 | 62078 => {
            ServiceCategory::WebAdminOrDeviceService
        },
        25 | 110 | 143 | 465 | 587 | 993 | 995 => ServiceCategory::MailService,
        88 | 389 | 636 | 3268 | 3269 => ServiceCategory::IdentityOrDirectory,
        53 | 69 | 123 | 161 | 162 | 500 | 1883 | 1900 | 3128 | 3478 | 5060 | 5061 | 5353 | 6667 => {
            ServiceCategory::NetworkService
        },
        _ => ServiceCategory::Unknown,
    }
}

/// How serious an exposed service is.
#[derive(Clone, Copy, PartialEq, Eq, Structural, Debug)]
pub enum Severity {
    High,
    Medium,
    Info,
}

impl Severity {
    pub open spec fn text(self) -> Seq<char> {
        match self {
            Severity::High => "high"@,
            Severity::Medium => "medium"@,
            Severity::Info => "info"@,
        }
    }

    /// The severity's label.
    pub fn as_str(&self) -> (s: &'static str)
        ensures
            s@ == self.text(),
    {
        match self {
            Severity::High => "high",
            Severity::Medium => "medium",
            Severity::Info => "info",
        }
    }
}

/// The severity of an exposed port.
pub open spec fn severity_of(port: u16) -> Severity {
    match port {
        21 | 23 | 5555 | 3389 | 5900 | 5901 | 5902 | 5985 | 5986 | 6000 => Severity::High,
        111 | 135 | 137 | 138 | 139 | 445 | 548 | 873 | 2049 => Severity::High,
        1433 | 1521 | 2181 | 2375 | 2376 | 2379 | 2380 | 3306 | 5432 | 5672 | 5984 | 6379 | 6443
        | 8086 | 8883 | 9042 | 9092 | 9093 | 9200 | 9300 | 10250 | 11211 | 15672 | 27017
        | 50070 => Severity::High,
        22 | 25 | 80 | 81 | 88 | 110 | 143 | 389 | 443 | 465 | 554 | 587 | 631 | 636 | 993 | 995
        | 1080 | 1099 | 1883 | 3000 | 3128 | 3268 | 3269 | 5000 | 5001 | 5601 | 7000 | 7001 | 7002
        | 7100 | 8000 | 8008 | 8009 | 8060 | 8080 | 8081 | 8181 | 8443 | 8888 | 9000 | 9100 | 9443
        | 9999 | 10000 | 62078 => Severity::Medium,
        _ => Severity::Info,
    }
}

/// The severity of an exposed port.
pub fn severity_for_port(port: u16) -> (s: Severity)
    ensures
        s == severity_of(port),
{
    match port {
        21 | 23 | 5555 | 3389 | 5900 | 5901 | 5902 | 5985 | 5986 | 6000 => Severity::High,
        111 | 135 | 137 | 138 | 139 | 445 | 548 | 873 | 2049 => Severity::High,
        1433 | 1521 | 2181 | 2375 | 2376 | 2379 | 2380 | 3306 | 5432 | 5672 | 5984 | 6379 | 6443
        | 8086 | 8883 | 9042 | 9092 | 9093 | 9200 | 9300 | 10250 | 11211 | 15672 | 27017
        | 50070 => Severity::High,
        22 | 25 | 80 | 81 | 88 | 110 | 143 | 389 | 443 | 465 | 554 | 587 | 631 | 636 | 993 | 995
        | 1080 | 1099 | 1883 | 3000 | 3128 | 3268 | 3269 | 5000 | 5001 | 5601 | 7000 | 7001 | 7002
        | 7100 | 8000 | 8008 | 8009 | 8060 | 8080 | 8081 | 8181 | 8443 | 8888 | 9000 | 9100 | 9443
        | 9999 | 10000 | 62078 => Severity::Medium,
        53 => Severity::Info,
        _ => Severity::Info,
    }
}

/// Ports where an HTTP `HEAD` request is tried.
pub open spec fn http_probe_port(port: u16) -> bool {
    port == 80 || port == 81 || port == 554 || port == 5601 || port == 5984 || port == 8086 || port
        == 8080 || port == 8081 || port == 8060 || port == 8181 || port == 8888 || port == 9000
        || port == 9200 || port == 9999 || port == 10000 || port == 15672 || port == 50070
}

/// Whether an HTTP `HEAD` request is tried on the port.
pub fn supports_http_probe(port: u16) -> (r: bool)
    ensures
        r == http_probe_port(port),
{
    matches!(port, 80 | 81 | 554 | 5601 | 5984 | 8086 | 8080 | 8081 | 8060 | 8181 | 8888 | 9000 | 9200 | 9999 | 10000 | 15672 | 50070)
}

/// Ports whose server speaks first, so an initial banner is read.
pub open spec fn banner_probe_port(port: u16) -> bool {
    port == 21 || port == 22 || port == 23 || port == 25 || port == 110 || port == 143 || port
        == 1433 || port == 1883 || port == 3306 || port == 5432 || port == 5672 || port == 6379
        || port == 9042 || port == 27017 || port == 62078
}

/// Whether an initial banner is read from the port.
pub fn supports_banner_probe(port: u16) -> (r: bool)
    ensures
        r == banner_probe_port(port),
{
    matches!(port, 21 | 22 | 23 | 25 | 110 | 143 | 1433 | 1883 | 3306 | 5432 | 5672 | 6379 | 9042 | 27017 | 62078)
}

/// How to read a banner from an open port.
#[derive(Clone, Copy, PartialEq, Eq, Structural, Debug)]
pub enum BannerProbe {
    /// Read what the service sends first.
    ReadGreeting,
    /// Send an HTTP `HEAD` request and summarise the answer.
    HttpSummary,
    /// Read nothing.
    NoProbe,
}

/// The greeting for services that speak first, the HTTP summary for web
/// ports, nothing otherwise.
pub open spec fn banner_probe_of(port: u16) -> BannerProbe {
    if banner_probe_port(port) {
        BannerProbe::ReadGreeting
    } else if http_probe_port(port) {
        BannerProbe::HttpSummary
    } else {
        BannerProbe::NoProbe
    }
}

/// How to read a banner from `port`.
pub fn banner_probe(port: u16) -> (b: BannerProbe)
    ensures
        b == banner_probe_of(port),
{
    if supports_banner_probe(port) {
        BannerProbe::ReadGreeting
    } else if supports_http_probe(port) {
        BannerProbe::HttpSummary
    } else {
        BannerProbe::NoProbe
    }
}

/// Ports of databases and infrastructure services.
pub open spec fn infra_port(port: u16) -> bool {
    port == 111 || port == 1433 || port == 1521 || port == 2049 || port == 2181 || port == 2375
        || port == 2376 || port == 2379 || port == 2380 || port == 3306 || port == 5432 || port
        == 5601 || port == 5672 || port == 5984 || port == 6379 || port == 6443 || port == 7000
        || port == 7100 || port == 8060 || port == 8086 || port == 8883 || port == 9042 || port
        == 9092 || port == 9093 || port == 9200 || port == 9300 || port == 10250 || port == 11211
        || port == 15672 || port == 27017 || port == 50070
}

/// How a finding was observed.
#[derive(Clone, Copy, PartialEq, Eq, Structural, Debug)]
pub enum Evidence {
    TcpConnect,
    HttpHead,
    BannerRead,
    CommonDatabaseOrInfraPort,
}

impl Evidence {
    pub open spec fn text(self) -> Seq<char> {
        match self {
            Evidence::TcpConnect => "tcp_connect"@,
            Evidence::HttpHead => "http_head"@,
            Evidence::BannerRead => "banner_read"@,
            Evidence::CommonDatabaseOrInfraPort => "common_database_or_infra_port"@,
        }
    }

    /// The evidence label.
    pub fn as_str(&self) -> (s: &'static str)
        ensures
            s@ == self.text(),
    {
        match self {
            Evidence::TcpConnect => "tcp_connect",
            Evidence::HttpHead => "http_head",
            Evidence::BannerRead => "banner_read",
            Evidence::CommonDatabaseOrInfraPort => "common_database_or_infra_port",
        }
    }
}

/// The evidence list of an open port: the connect, then the probes that apply.
pub open spec fn evidence_of(port: u16) -> Seq<Evidence> {
    seq![Evidence::TcpConnect] + (if http_probe_port(port) {
        seq![Evidence::HttpHead]
    } else {
        Seq::empty()
    }) + (if banner_probe_port(port) {
        seq![Evidence::BannerRead]
    } else {
        Seq::empty()
    }) + (if infra_port(port) {
        seq![Evidence::CommonDatabaseOrInfraPort]
    } else {
        Seq::empty()
    })
}

/// The evidence recorded for an open port.
pub fn evidence_for_port(port: u16) -> (e: Vec<Evidence>)
    ensures
        e@ == evidence_of(port),
{
    let mut evidence: Vec<Evidence> = Vec::new();
    evidence.push(Evidence::TcpConnect);
    if supports_http_probe(port) {
        evidence.push(Evidence::HttpHead);
    }
    if supports_banner_probe(port) {
        evidence.push(Evidence::BannerRead);
    }
    if matches!(port, 111 | 1433 | 1521 | 2049 | 2181 | 2375 | 2376 | 2379 | 2380 | 3306 | 5432 | 5601 | 5672 | 5984 | 6379 | 6443 | 7000 | 7100 | 8060 | 8086 | 8883 | 9042 | 9092 | 9093 | 9200 | 9300 | 10250 | 11211 | 15672 | 27017 | 50070) {
        evidence.push(Evidence::CommonDatabaseOrInfraPort);
    }
    assert(evidence@ =~= evidence_of(port));
    evidence
}

/// The kind of attack surface an exposed service adds.
#[derive(Clone, Copy, PartialEq, Eq, Structural, Debug)]
pub enum SecurityTag {
    LegacyCleartextProtocol,
    RemoteAdminSurface,
    FileSharingOrRpcSurface,
    DatabaseOrDatastoreSurface,
    InfrastructureOrQueueSurface,
    ContainerManagementSurface,
    KubernetesSurface,
    IdentityOrDirectorySurface,
    WebAdminOrAppSurface,
    AndroidDebugBridgeSurface,
    AppleMobilePairingSurface,
    MediaControlSurface,
    PrinterManagementSurface,
    NetworkOrDiscoverySurface,
}

impl SecurityTag {
    pub open spec fn text(self) -> Seq<char> {
        match self {
            SecurityTag::LegacyCleartextProtocol => "legacy_cleartext_protocol"@,
            SecurityTag::RemoteAdminSurface => "remote_admin_surface"@,
            SecurityTag::FileSharingOrRpcSurface => "file_sharing_or_rpc_surface"@,
            SecurityTag::DatabaseOrDatastoreSurface => "database_or_datastore_surface"@,
            SecurityTag::InfrastructureOrQueueSurface => "infrastructure_or_queue_surface"@,
            SecurityTag::ContainerManagementSurface => "container_management_surface"@,
            SecurityTag::KubernetesSurface => "kubernetes_surface"@,
            SecurityTag::IdentityOrDirectorySurface => "identity_or_directory_surface"@,
            SecurityTag::WebAdminOrAppSurface => "web_admin_or_app_surface"@,
            SecurityTag::AndroidDebugBridgeSurface => "android_debug_bridge_surface"@,
            SecurityTag::AppleMobilePairingSurface => "apple_mobile_pairing_surface"@,
            SecurityTag::MediaControlSurface => "media_control_surface"@,
            SecurityTag::PrinterManagementSurface => "printer_management_surface"@,
            SecurityTag::NetworkOrDiscoverySurface => "network_or_discovery_surface"@,
        }
    }

    /// The tag's label.
    pub fn as_str(&self) -> (s: &'static str)
        ensures
            s@ == self.text(),
    {
        match self {
            SecurityTag::LegacyCleartextProtocol => "legacy_cleartext_protocol",
            SecurityTag::RemoteAdminSurface => "remote_admin_surface",
            SecurityTag::FileSharingOrRpcSurface => "file_sharing_or_rpc_surface",
            SecurityTag::DatabaseOrDatastoreSurface => "database_or_datastore_surface",
            SecurityTag::InfrastructureOrQueueSurface => "infrastructure_or_queue_surface",
            SecurityTag::ContainerManagementSurface => "container_management_surface",
            SecurityTag::KubernetesSurface => "kubernetes_surface",
            SecurityTag::IdentityOrDirectorySurface => "identity_or_directory_surface",
            SecurityTag::WebAdminOrAppSurface => "web_admin_or_app_surface",
            SecurityTag::AndroidDebugBridgeSurface => "android_debug_bridge_surface",
            SecurityTag::AppleMobilePairingSurface => "apple_mobile_pairing_surface",
            SecurityTag::MediaControlSurface => "media_control_surface",
            SecurityTag::PrinterManagementSurface => "printer_management_surface",
            SecurityTag::NetworkOrDiscoverySurface => "network_or_discovery_surface",
        }
    }
}

/// The security tag of an exposed port, if it has one.
pub open spec fn security_tag_of(port: u16) -> Option<SecurityTag> {
    match port {
        21 | 23 | 69 => Some(SecurityTag::LegacyCleartextProtocol),
        22 | 3389 | 5900 | 5901 | 5902 | 5985 | 5986 => Some(SecurityTag::RemoteAdminSurface),
        135 | 137 | 138 | 139 | 445 | 548 | 873 | 111 | 2049 => Some(SecurityTag::FileSharingOrRpcSurface),
        1433 | 1521 | 3306 | 5432 | 5984 | 6379 | 8086 | 9042 | 9200 | 9300 | 11211 | 27017 => {
            Some(SecurityTag::DatabaseOrDatastoreSurface)
        },
        2181 | 2379 | 2380 | 5672 | 8883 | 9092 | 9093 | 15672 => {
            Some(SecurityTag::InfrastructureOrQueueSurface)
        },
        2375 | 2376 => Some(SecurityTag::ContainerManagementSurface),
        6443 | 10250 => Some(SecurityTag::KubernetesSurface),
        389 | 636 | 3268 | 3269 | 88 => Some(SecurityTag::IdentityOrDirectorySurface),
        80 | 81 | 443 | 5601 | 7001 | 7002 | 8080 | 8081 | 8181 | 8443 | 8888 | 9000 | 9443 | 9999
        | 10000 | 50070 => Some(SecurityTag::WebAdminOrAppSurface),
        5555 => Some(SecurityTag::AndroidDebugBridgeSurface),
        62078 => Some(SecurityTag::AppleMobilePairingSurface),
        7000 | 7100 | 8060 => Some(SecurityTag::MediaControlSurface),
        9100 | 515 | 631 => Some(SecurityTag::PrinterManagementSurface),
        53 | 161 | 162 | 1883 | 1900 | 5353 | 5357 | 5060 | 5061 => {
            Some(SecurityTag::NetworkOrDiscoverySurface)
        },
        _ => None,
    }
}

/// The security tag of an exposed port, if it has one.
pub fn security_tag_for_port(port: u16) -> (t: Option<SecurityTag>)
    ensures
        t == security_tag_of(port),
{
    match port {
        21 | 23 | 69 => Some(SecurityTag::LegacyCleartextProtocol),
        22 | 3389 | 5900 | 5901 | 5902 | 5985 | 5986 => Some(SecurityTag::RemoteAdminSurface),
        135 | 137 | 138 | 139 | 445 | 548 | 873 | 111 | 2049 => Some(SecurityTag::FileSharingOrRpcSurface),
        1433 | 1521 | 3306 | 5432 | 5984 | 6379 | 8086 | 9042 | 9200 | 9300 | 11211 | 27017 => {
            Some(SecurityTag::DatabaseOrDatastoreSurface)
        },
        2181 | 2379 | 2380 | 5672 | 8883 | 9092 | 9093 | 15672 => {
            Some(SecurityTag::InfrastructureOrQueueSurface)
        },
        2375 | 2376 => Some(SecurityTag::ContainerManagementSurface),
        6443 | 10250 => Some(SecurityTag::KubernetesSurface),
        389 | 636 | 3268 | 3269 | 88 => Some(SecurityTag::IdentityOrDirectorySurface),
        80 | 81 | 443 | 5601 | 7001 | 7002 | 8080 | 8081 | 8181 | 8443 | 8888 | 9000 | 9443 | 9999
        | 10000 | 50070 => Some(SecurityTag::WebAdminOrAppSurface),
        5555 => Some(SecurityTag::AndroidDebugBridgeSurface),
        62078 => Some(SecurityTag::AppleMobilePairingSurface),
        7000 | 7100 | 8060 => Some(SecurityTag::MediaControlSurface),
        9100 | 515 | 631 => Some(SecurityTag::PrinterManagementSurface),
        53 | 161 | 162 | 1883 | 1900 | 5353 | 5357 | 5060 | 5061 => {
            Some(SecurityTag::NetworkOrDiscoverySurface)
        },
        _ => None,
    }
}

/// The usual service on a TCP port.
pub open spec fn service_name_of(port: u16) -> Seq<char> {
    match port {
        20 => "ftp-data"@,
        21 => "ftp"@,
        22 => "ssh"@,
        23 => "telnet"@,
        25 => "smtp"@,
        53 => "dns"@,
        69 => "tftp"@,
        111 => "rpcbind"@,
        80 => "http"@,
        81 => "http-alt"@,
        88 => "kerberos"@,
        110 => "pop3"@,
        135 => "msrpc"@,
        137 => "netbios-ns"@,
        138 => "netbios-dgm"@,
        139 => "netbios"@,
        143 => "imap"@,
        161 => "snmp"@,
        162 => "snmp-trap"@,
        389 => "ldap"@,
        443 => "https"@,
        445 => "smb"@,
        465 => "smtps"@,
        500 => "ike"@,
        515 => "lpd-printer"@,
        548 => "afp"@,
        554 => "rtsp"@,
        587 => "smtp-submission"@,
        631 => "ipp"@,
        636 => "ldaps"@,
        873 => "rsync"@,
        902 => "vmware-auth"@,
        993 => "imaps"@,
        995 => "pop3s"@,
        1025 => "windows-rpc-ephemeral"@,
        1080 => "socks-proxy"@,
        1099 => "java-rmi"@,
        1194 => "openvpn"@,
        1433 => "mssql"@,
        1521 => "oracle-db"@,
        1723 => "pptp"@,
        1883 => "mqtt"@,
        1900 => "ssdp"@,
        2049 => "nfs"@,
        2082 => "cpanel"@,
        2083 => "cpanel-https"@,
        2181 => "zookeeper"@,
        2375 => "docker-api"@,
        2376 => "docker-api-tls"@,
        2379 => "etcd-client"@,
        2380 => "etcd-peer"@,
        3000 => "dev-web"@,
        3128 => "http-proxy"@,
        3268 => "ldap-global-catalog"@,
        3269 => "ldaps-global-catalog"@,
        3306 => "mysql-mariadb"@,
        5432 => "postgresql"@,
        3478 => "stun-turn"@,
        5000 => "upnp-dev-web"@,
        5001 => "nas-admin-https"@,
        5060 => "sip"@,
        5061 => "sips"@,
        5353 => "mdns"@,
        5357 => "wsdapi"@,
        5555 => "android-debug-bridge"@,
        5601 => "kibana"@,
        5672 => "amqp-rabbitmq"@,
        5901 => "vnc-1"@,
        5902 => "vnc-2"@,
        5984 => "couchdb"@,
        6379 => "redis"@,
        6000 => "x11"@,
        6443 => "kubernetes-api"@,
        6667 => "irc"@,
        7000 => "airplay"@,
        7001 => "weblogic"@,
        7002 => "weblogic-ssl"@,
        7100 => "airplay-alt"@,
        8000 => "http-dev"@,
        8008 => "http-alt"@,
        8009 => "ajp"@,
        8060 => "roku-ecp"@,
        8086 => "influxdb"@,
        8080 => "http-alt"@,
        8081 => "http-alt"@,
        8181 => "http-alt"@,
        8443 => "https-alt"@,
        8530 => "wsus"@,
        8531 => "wsus-ssl"@,
        8883 => "mqtt-tls"@,
        8888 => "http-alt"@,
        9000 => "admin-dev-service"@,
        9042 => "cassandra"@,
        9092 => "kafka"@,
        9093 => "kafka-tls"@,
        3389 => "rdp"@,
        5900 => "vnc"@,
        5985 => "winrm-http"@,
        5986 => "winrm-https"@,
        9200 => "elasticsearch-opensearch"@,
        9300 => "elasticsearch-transport"@,
        9443 => "https-admin-alt"@,
        9100 => "jetdirect"@,
        9999 => "admin-alt"@,
        10000 => "webmin"@,
        10250 => "kubelet"@,
        11211 => "memcached"@,
        15672 => "rabbitmq-management"@,
        62078 => "ios-lockdown"@,
        27017 => "mongodb"@,
        50070 => "hadoop-name-node"@,
        _ => "unknown"@,
    }
}

proof fn lemma_port_named(port: u16)
    requires
        port == 21 || port == 22 || port == 23 || port == 25 || port == 53 || port == 80 ||
            port == 81 || port == 88 || port == 110 || port == 111 || port == 135 || port == 137 ||
            port == 138 || port == 139 || port == 143 || port == 389 || port == 443 ||
            port == 445 || port == 465 || port == 548 || port == 554 || port == 587 ||
            port == 631 || port == 636 || port == 873 || port == 993 || port == 995 ||
            port == 1080 || port == 1099 || port == 1433 || port == 1521 || port == 1883 ||
            port == 2049 || port == 2181 || port == 2375 || port == 2376 || port == 2379 ||
            port == 2380 || port == 3000 || port == 3128 || port == 3268 || port == 3269 ||
            port == 3306 || port == 3389 || port == 5000 || port == 5001 || port == 5432 ||
            port == 5555 || port == 5601 || port == 5672 || port == 5900 || port == 5901 ||
            port == 5902 || port == 5984 || port == 5985 || port == 5986 || port == 6000 ||
            port == 6379 || port == 6443 || port == 7000 || port == 7001 || port == 7002 ||
            port == 7100 || port == 8000 || port == 8008 || port == 8009 || port == 8060 ||
            port == 8080 || port == 8081 || port == 8086 || port == 8181 || port == 8443 ||
            port == 8883 || port == 8888 || port == 9000 || port == 9042 || port == 9092 ||
            port == 9093 || port == 9100 || port == 9200 || port == 9300 || port == 9443 ||
            port == 9999 || port == 10000 || port == 10250 || port == 11211 || port == 15672 ||
            port == 27017 || port == 50070 || port == 62078,
    ensures
        service_name_of(port) != "unknown"@,
{
    reveal_strlit("unknown");
    if port == 21 {
        reveal_strlit("ftp");
        assert(service_name_of(port) == "ftp"@);
        assert("ftp"@.len() != "unknown"@.len());
    } else if port == 22 {
        reveal_strlit("ssh");
        assert(service_name_of(port) == "ssh"@);
        assert("ssh"@.len() != "unknown"@.len());
    } else if port == 23 {
        reveal_strlit("telnet");
        assert(service_name_of(port) == "telnet"@);
        assert("telnet"@.len() != "unknown"@.len());
    } else if port == 25 {
        reveal_strlit("smtp");
        assert(service_name_of(port) == "smtp"@);
        assert("smtp"@.len() != "unknown"@.len());
    } else if port == 53 {
        reveal_strlit("dns");
        assert(service_name_of(port) == "dns"@);
        assert("dns"@.len() != "unknown"@.len());
    } else if port == 80 {
        reveal_strlit("http");
        assert(service_name_of(port) == "http"@);
        assert("http"@.len() != "unknown"@.len());
    } else if port == 81 {
        reveal_strlit("http-alt");
        assert(service_name_of(port) == "http-alt"@);
        assert("http-alt"@.len() != "unknown"@.len());
    } else if port == 88 {
        reveal_strlit("kerberos");
        assert(service_name_of(port) == "kerberos"@);
        assert("kerberos"@.len() != "unknown"@.len());
    } else if port == 110 {
        reveal_strlit("pop3");
        assert(service_name_of(port) == "pop3"@);
        assert("pop3"@.len() != "unknown"@.len());
    } else if port == 111 {
        reveal_strlit("rpcbind");
        assert(service_name_of(port) == "rpcbind"@);
        assert("rpcbind"@[0] != "unknown"@[0]);
    } else if port == 135 {
        reveal_strlit("msrpc");
        assert(service_name_of(port) == "msrpc"@);
        assert("msrpc"@.len() != "unknown"@.len());
    } else if port == 137 {
        reveal_strlit("netbios-ns");
        assert(service_name_of(port) == "netbios-ns"@);
        assert("netbios-ns"@.len() != "unknown"@.len());
    } else if port == 138 {
        reveal_strlit("netbios-dgm");
        assert(service_name_of(port) == "netbios-dgm"@);
        assert("netbios-dgm"@.len() != "unknown"@.len());
    } else if port == 139 {
        reveal_strlit("netbios");
        assert(service_name_of(port) == "netbios"@);
        assert("netbios"@[0] != "unknown"@[0]);
    } else if port == 143 {
        reveal_strlit("imap");
        assert(service_name_of(port) == "imap"@);
        assert("imap"@.len() != "unknown"@.len());
    } else if port == 389 {
        reveal_strlit("ldap");
        assert(service_name_of(port) == "ldap"@);
        assert("ldap"@.len() != "unknown"@.len());
    } else if port == 443 {
        reveal_strlit("https");
        assert(service_name_of(port) == "https"@);
        assert("https"@.len() != "unknown"@.len());
    } else if port == 445 {
        reveal_strlit("smb");
        assert(service_name_of(port) == "smb"@);
        assert("smb"@.len() != "unknown"@.len());
    } else if port == 465 {
        reveal_strlit("smtps");
        assert(service_name_of(port) == "smtps"@);
        assert("smtps"@.len() != "unknown"@.len());
    } else if port == 548 {
        reveal_strlit("afp");
        assert(service_name_of(port) == "afp"@);
        assert("afp"@.len() != "unknown"@.len());
    } else if port == 554 {
        reveal_strlit("rtsp");
        assert(service_name_of(port) == "rtsp"@);
        assert("rtsp"@.len() != "unknown"@.len());
    } else if port == 587 {
        reveal_strlit("smtp-submission");
        assert(service_name_of(port) == "smtp-submission"@);
        assert("smtp-submission"@.len() != "unknown"@.len());
    } else if port == 631 {
        reveal_strlit("ipp");
        assert(service_name_of(port) == "ipp"@);
        assert("ipp"@.len() != "unknown"@.len());
    } else if port == 636 {
        reveal_strlit("ldaps");
        assert(service_name_of(port) == "ldaps"@);
        assert("ldaps"@.len() != "unknown"@.len());
    } else if port == 873 {
        reveal_strlit("rsync");
        assert(service_name_of(port) == "rsync"@);
        assert("rsync"@.len() != "unknown"@.len());
    } else if port == 993 {
        reveal_strlit("imaps");
        assert(service_name_of(port) == "imaps"@);
        assert("imaps"@.len() != "unknown"@.len());
    } else if port == 995 {
        reveal_strlit("pop3s");
        assert(service_name_of(port) == "pop3s"@);
        assert("pop3s"@.len() != "unknown"@.len());
    } else if port == 1080 {
        reveal_strlit("socks-proxy");
        assert(service_name_of(port) == "socks-proxy"@);
        assert("socks-proxy"@.len() != "unknown"@.len());
    } else if port == 1099 {
        reveal_strlit("java-rmi");
        assert(service_name_of(port) == "java-rmi"@);
        assert("java-rmi"@.len() != "unknown"@.len());
    } else if port == 1433 {
        reveal_strlit("mssql");
        assert(service_name_of(port) == "mssql"@);
        assert("mssql"@.len() != "unknown"@.len());
    } else if port == 1521 {
        reveal_strlit("oracle-db");
        assert(service_name_of(port) == "oracle-db"@);
        assert("oracle-db"@.len() != "unknown"@.len());
    } else if port == 1883 {
        reveal_strlit("mqtt");
        assert(service_name_of(port) == "mqtt"@);
        assert("mqtt"@.len() != "unknown"@.len());
    } else if port == 2049 {
        reveal_strlit("nfs");
        assert(service_name_of(port) == "nfs"@);
        assert("nfs"@.len() != "unknown"@.len());
    } else if port == 2181 {
        reveal_strlit("zookeeper");
        assert(service_name_of(port) == "zookeeper"@);
        assert("zookeeper"@.len() != "unknown"@.len());
    } else if port == 2375 {
        reveal_strlit("docker-api");
        assert(service_name_of(port) == "docker-api"@);
        assert("docker-api"@.len() != "unknown"@.len());
    } else if port == 2376 {
        reveal_strlit("docker-api-tls");
        assert(service_name_of(port) == "docker-api-tls"@);
        assert("docker-api-tls"@.len() != "unknown"@.len());
    } else if port == 2379 {
        reveal_strlit("etcd-client");
        assert(service_name_of(port) == "etcd-client"@);
        assert("etcd-client"@.len() != "unknown"@.len());
    } else if port == 2380 {
        reveal_strlit("etcd-peer");
        assert(service_name_of(port) == "etcd-peer"@);
        assert("etcd-peer"@.len() != "unknown"@.len());
    } else if port == 3000 {
        reveal_strlit("dev-web");
        assert(service_name_of(port) == "dev-web"@);
        assert("dev-web"@[0] != "unknown"@[0]);
    } else if port == 3128 {
        reveal_strlit("http-proxy");
        assert(service_name_of(port) == "http-proxy"@);
        assert("http-proxy"@.len() != "unknown"@.len());
    } else if port == 3268 {
        reveal_strlit("ldap-global-catalog");
        assert(service_name_of(port) == "ldap-global-catalog"@);
        assert("ldap-global-catalog"@.len() != "unknown"@.len());
    } else if port == 3269 {
        reveal_strlit("ldaps-global-catalog");
        assert(service_name_of(port) == "ldaps-global-catalog"@);
        assert("ldaps-global-catalog"@.len() != "unknown"@.len());
    } else if port == 3306 {
        reveal_strlit("mysql-mariadb");
        assert(service_name_of(port) == "mysql-mariadb"@);
        assert("mysql-mariadb"@.len() != "unknown"@.len());
    } else if port == 3389 {
        reveal_strlit("rdp");
        assert(service_name_of(port) == "rdp"@);
        assert("rdp"@.len() != "unknown"@.len());
    } else if port == 5000 {
        reveal_strlit("upnp-dev-web");
        assert(service_name_of(port) == "upnp-dev-web"@);
        assert("upnp-dev-web"@.len() != "unknown"@.len());
    } else if port == 5001 {
        reveal_strlit("nas-admin-https");
        assert(service_name_of(port) == "nas-admin-https"@);
        assert("nas-admin-https"@.len() != "unknown"@.len());
    } else if port == 5432 {
        reveal_strlit("postgresql");
        assert(service_name_of(port) == "postgresql"@);
        assert("postgresql"@.len() != "unknown"@.len());
    } else if port == 5555 {
        reveal_strlit("android-debug-bridge");
        assert(service_name_of(port) == "android-debug-bridge"@);
        assert("android-debug-bridge"@.len() != "unknown"@.len());
    } else if port == 5601 {
        reveal_strlit("kibana");
        assert(service_name_of(port) == "kibana"@);
        assert("kibana"@.len() != "unknown"@.len());
    } else if port == 5672 {
        reveal_strlit("amqp-rabbitmq");
        assert(service_name_of(port) == "amqp-rabbitmq"@);
        assert("amqp-rabbitmq"@.len() != "unknown"@.len());
    } else if port == 5900 {
        reveal_strlit("vnc");
        assert(service_name_of(port) == "vnc"@);
        assert("vnc"@.len() != "unknown"@.len());
    } else if port == 5901 {
        reveal_strlit("vnc-1");
        assert(service_name_of(port) == "vnc-1"@);
        assert("vnc-1"@.len() != "unknown"@.len());
    } else if port == 5902 {
        reveal_strlit("vnc-2");
        assert(service_name_of(port) == "vnc-2"@);
        assert("vnc-2"@.len() != "unknown"@.len());
    } else if port == 5984 {
        reveal_strlit("couchdb");
        assert(service_name_of(port) == "couchdb"@);
        assert("couchdb"@[0] != "unknown"@[0]);
    } else if port == 5985 {
        reveal_strlit("winrm-http");
        assert(service_name_of(port) == "winrm-http"@);
        assert("winrm-http"@.len() != "unknown"@.len());
    } else if port == 5986 {
        reveal_strlit("winrm-https");
        assert(service_name_of(port) == "winrm-https"@);
        assert("winrm-https"@.len() != "unknown"@.len());
    } else if port == 6000 {
        reveal_strlit("x11");
        assert(service_name_of(port) == "x11"@);
        assert("x11"@.len() != "unknown"@.len());
    } else if port == 6379 {
        reveal_strlit("redis");
        assert(service_name_of(port) == "redis"@);
        assert("redis"@.len() != "unknown"@.len());
    } else if port == 6443 {
        reveal_strlit("kubernetes-api");
        assert(service_name_of(port) == "kubernetes-api"@);
        assert("kubernetes-api"@.len() != "unknown"@.len());
    } else if port == 7000 {
        reveal_strlit("airplay");
        assert(service_name_of(port) == "airplay"@);
        assert("airplay"@[0] != "unknown"@[0]);
    } else if port == 7001 {
        reveal_strlit("weblogic");
        assert(service_name_of(port) == "weblogic"@);
        assert("weblogic"@.len() != "unknown"@.len());
    } else if port == 7002 {
        reveal_strlit("weblogic-ssl");
        assert(service_name_of(port) == "weblogic-ssl"@);
        assert("weblogic-ssl"@.len() != "unknown"@.len());
    } else if port == 7100 {
        reveal_strlit("airplay-alt");
        assert(service_name_of(port) == "airplay-alt"@);
        assert("airplay-alt"@.len() != "unknown"@.len());
    } else if port == 8000 {
        reveal_strlit("http-dev");
        assert(service_name_of(port) == "http-dev"@);
        assert("http-dev"@.len() != "unknown"@.len());
    } else if port == 8008 {
        reveal_strlit("http-alt");
        assert(service_name_of(port) == "http-alt"@);
        assert("http-alt"@.len() != "unknown"@.len());
    } else if port == 8009 {
        reveal_strlit("ajp");
        assert(service_name_of(port) == "ajp"@);
        assert("ajp"@.len() != "unknown"@.len());
    } else if port == 8060 {
        reveal_strlit("roku-ecp");
        assert(service_name_of(port) == "roku-ecp"@);
        assert("roku-ecp"@.len() != "unknown"@.len());
    } else if port == 8080 {
        reveal_strlit("http-alt");
        assert(service_name_of(port) == "http-alt"@);
        assert("http-alt"@.len() != "unknown"@.len());
    } else if port == 8081 {
        reveal_strlit("http-alt");
        assert(service_name_of(port) == "http-alt"@);
        assert("http-alt"@.len() != "unknown"@.len());
    } else if port == 8086 {
        reveal_strlit("influxdb");
        assert(service_name_of(port) == "influxdb"@);
        assert("influxdb"@.len() != "unknown"@.len());
    } else if port == 8181 {
        reveal_strlit("http-alt");
        assert(service_name_of(port) == "http-alt"@);
        assert("http-alt"@.len() != "unknown"@.len());
    } else if port == 8443 {
        reveal_strlit("https-alt");
        assert(service_name_of(port) == "https-alt"@);
        assert("https-alt"@.len() != "unknown"@.len());
    } else if port == 8883 {
        reveal_strlit("mqtt-tls");
        assert(service_name_of(port) == "mqtt-tls"@);
        assert("mqtt-tls"@.len() != "unknown"@.len());
    } else if port == 8888 {
        reveal_strlit("http-alt");
        assert(service_name_of(port) == "http-alt"@);
        assert("http-alt"@.len() != "unknown"@.len());
    } else if port == 9000 {
        reveal_strlit("admin-dev-service");
        assert(service_name_of(port) == "admin-dev-service"@);
        assert("admin-dev-service"@.len() != "unknown"@.len());
    } else if port == 9042 {
        reveal_strlit("cassandra");
        assert(service_name_of(port) == "cassandra"@);
        assert("cassandra"@.len() != "unknown"@.len());
    } else if port == 9092 {
        reveal_strlit("kafka");
        assert(service_name_of(port) == "kafka"@);
        assert("kafka"@.len() != "unknown"@.len());
    } else if port == 9093 {
        reveal_strlit("kafka-tls");
        assert(service_name_of(port) == "kafka-tls"@);
        assert("kafka-tls"@.len() != "unknown"@.len());
    } else if port == 9100 {
        reveal_strlit("jetdirect");
        assert(service_name_of(port) == "jetdirect"@);
        assert("jetdirect"@.len() != "unknown"@.len());
    } else if port == 9200 {
        reveal_strlit("elasticsearch-opensearch");
        assert(service_name_of(port) == "elasticsearch-opensearch"@);
        assert("elasticsearch-opensearch"@.len() != "unknown"@.len());
    } else if port == 9300 {
        reveal_strlit("elasticsearch-transport");
        assert(service_name_of(port) == "elasticsearch-transport"@);
        assert("elasticsearch-transport"@.len() != "unknown"@.len());
    } else if port == 9443 {
        reveal_strlit("https-admin-alt");
        assert(service_name_of(port) == "https-admin-alt"@);
        assert("https-admin-alt"@.len() != "unknown"@.len());
    } else if port == 9999 {
        reveal_strlit("admin-alt");
        assert(service_name_of(port) == "admin-alt"@);
        assert("admin-alt"@.len() != "unknown"@.len());
    } else if port == 10000 {
        reveal_strlit("webmin");
        assert(service_name_of(port) == "webmin"@);
        assert("webmin"@.len() != "unknown"@.len());
    } else if port == 10250 {
        reveal_strlit("kubelet");
        assert(service_name_of(port) == "kubelet"@);
        assert("kubelet"@[0] != "unknown"@[0]);
    } else if port == 11211 {
        reveal_strlit("memcached");
        assert(service_name_of(port) == "memcached"@);
        assert("memcached"@.len() != "unknown"@.len());
    } else if port == 15672 {
        reveal_strlit("rabbitmq-management");
        assert(service_name_of(port) == "rabbitmq-management"@);
        assert("rabbitmq-management"@.len() != "unknown"@.len());
    } else if port == 27017 {
        reveal_strlit("mongodb");
        assert(service_name_of(port) == "mongodb"@);
        assert("mongodb"@[0] != "unknown"@[0]);
    } else if port == 50070 {
        reveal_strlit("hadoop-name-node");
        assert(service_name_of(port) == "hadoop-name-node"@);
        assert("hadoop-name-node"@.len() != "unknown"@.len());
    } else if port == 62078 {
        reveal_strlit("ios-lockdown");
        assert(service_name_of(port) == "ios-lockdown"@);
        assert("ios-lockdown"@.len() != "unknown"@.len());
    }
}

/// Every port the light profile tests has a known service name.
pub proof fn lemma_light_ports_named()
    ensures
        forall|k: int| 0 <= k < light_ports().len() ==> service_name_of(#[trigger] light_ports()[k]) != "unknown"@,
{
    assert forall|k: int| 0 <= k < light_ports().len() implies service_name_of(#[trigger] light_ports()[k]) != "unknown"@ by {
        if k == 0 {
            assert(light_ports()[0] == 22);
            lemma_port_named(22);
        } else if k == 1 {
            assert(light_ports()[1] == 23);
            lemma_port_named(23);
        } else if k == 2 {
            assert(light_ports()[2] == 53);
            lemma_port_named(53);
        } else if k == 3 {
            assert(light_ports()[3] == 80);
            lemma_port_named(80);
        } else if k == 4 {
            assert(light_ports()[4] == 135);
            lemma_port_named(135);
        } else if k == 5 {
            assert(light_ports()[5] == 139);
            lemma_port_named(139);
        } else if k == 6 {
            assert(light_ports()[6] == 443);
            lemma_port_named(443);
        } else if k == 7 {
            assert(light_ports()[7] == 445);
            lemma_port_named(445);
        } else if k == 8 {
            assert(light_ports()[8] == 631);
            lemma_port_named(631);
        } else if k == 9 {
            assert(light_ports()[9] == 111);
            lemma_port_named(111);
        } else if k == 10 {
            assert(light_ports()[10] == 1433);
            lemma_port_named(1433);
        } else if k == 11 {
            assert(light_ports()[11] == 1521);
            lemma_port_named(1521);
        } else if k == 12 {
            assert(light_ports()[12] == 2049);
            lemma_port_named(2049);
        } else if k == 13 {
            assert(light_ports()[13] == 2181);
            lemma_port_named(2181);
        } else if k == 14 {
            assert(light_ports()[14] == 3306);
            lemma_port_named(3306);
        } else if k == 15 {
            assert(light_ports()[15] == 5432);
            lemma_port_named(5432);
        } else if k == 16 {
            assert(light_ports()[16] == 5601);
            lemma_port_named(5601);
        } else if k == 17 {
            assert(light_ports()[17] == 5672);
            lemma_port_named(5672);
        } else if k == 18 {
            assert(light_ports()[18] == 5984);
            lemma_port_named(5984);
        } else if k == 19 {
            assert(light_ports()[19] == 6379);
            lemma_port_named(6379);
        } else if k == 20 {
            assert(light_ports()[20] == 8086);
            lemma_port_named(8086);
        } else if k == 21 {
            assert(light_ports()[21] == 8080);
            lemma_port_named(8080);
        } else if k == 22 {
            assert(light_ports()[22] == 8443);
            lemma_port_named(8443);
        } else if k == 23 {
            assert(light_ports()[23] == 9092);
            lemma_port_named(9092);
        } else if k == 24 {
            assert(light_ports()[24] == 3389);
            lemma_port_named(3389);
        } else if k == 25 {
            assert(light_ports()[25] == 5900);
            lemma_port_named(5900);
        } else if k == 26 {
            assert(light_ports()[26] == 5985);
            lemma_port_named(5985);
        } else if k == 27 {
            assert(light_ports()[27] == 5986);
            lemma_port_named(5986);
        } else if k == 28 {
            assert(light_ports()[28] == 9200);
            lemma_port_named(9200);
        } else if k == 29 {
            assert(light_ports()[29] == 9100);
            lemma_port_named(9100);
        } else if k == 30 {
            assert(light_ports()[30] == 11211);
            lemma_port_named(11211);
        } else if k == 31 {
            assert(light_ports()[31] == 15672);
            lemma_port_named(15672);
        } else if k == 32 {
            assert(light_ports()[32] == 27017);
            lemma_port_named(27017);
        }
    }
}

/// Every port rated above informational severity has a known service name.
pub proof fn lemma_rated_ports_named(port: u16)
    requires
        severity_of(port) != Severity::Info,
    ensures
        service_name_of(port) != "unknown"@,
{
    lemma_port_named(port);
}

/// Every port that takes a banner or an HTTP probe has a known service name.
pub proof fn lemma_probed_ports_named(port: u16)
    requires
        banner_probe_port(port) || http_probe_port(port),
    ensures
        service_name_of(port) != "unknown"@,
{
    lemma_port_named(port);
}

/// The remote-desktop and remote-shell ports (FTP, Telnet, RDP, Android
/// Debug Bridge, VNC, WinRM and X11) are rated high.
pub proof fn lemma_remote_access_high(port: u16)
    requires
        port == 21 || port == 23 || port == 3389 || port == 5555 || port == 5900 || port == 5901
            || port == 5902 || port == 5985 || port == 5986 || port == 6000,
    ensures
        severity_of(port) == Severity::High,
{
}

/// A port that exposes file sharing or RPC, a database or datastore, queue or
/// coordination infrastructure, container or Kubernetes management, or
/// Android debugging is rated high.
pub proof fn lemma_sensitive_surfaces_high(port: u16)
    requires
        security_tag_of(port) == Some(SecurityTag::FileSharingOrRpcSurface)
            || security_tag_of(port) == Some(SecurityTag::DatabaseOrDatastoreSurface)
            || security_tag_of(port) == Some(SecurityTag::InfrastructureOrQueueSurface)
            || security_tag_of(port) == Some(SecurityTag::ContainerManagementSurface)
            || security_tag_of(port) == Some(SecurityTag::KubernetesSurface)
            || security_tag_of(port) == Some(SecurityTag::AndroidDebugBridgeSurface),
    ensures
        severity_of(port) == Severity::High,
{
}

/// Database, datastore, message-queue and coordination services are rated high.
pub proof fn lemma_data_services_high(port: u16)
    requires
        category_of(port) == ServiceCategory::DatabaseOrDatastore
            || category_of(port) == ServiceCategory::MessageQueueOrCoordination,
    ensures
        severity_of(port) == Severity::High,
{
}

/// A port that exposes remote administration, a directory, a web admin
/// console or application, Apple device pairing or media control is rated at
/// least medium.
pub proof fn lemma_admin_surfaces_rated(port: u16)
    requires
        security_tag_of(port) == Some(SecurityTag::RemoteAdminSurface)
            || security_tag_of(port) == Some(SecurityTag::IdentityOrDirectorySurface)
            || security_tag_of(port) == Some(SecurityTag::WebAdminOrAppSurface)
            || security_tag_of(port) == Some(SecurityTag::AppleMobilePairingSurface)
            || security_tag_of(port) == Some(SecurityTag::MediaControlSurface),
    ensures
        severity_of(port) != Severity::Info,
{
}

/// Every port that takes a banner or an HTTP probe is rated at least medium.
pub proof fn lemma_probed_ports_rated(port: u16)
    requires
        banner_probe_port(port) || http_probe_port(port),
    ensures
        severity_of(port) != Severity::Info,
{
}

/// The thorough profile tests every port that is rated above informational,
/// carries a security tag, or takes a banner or HTTP probe.
pub proof fn lemma_exposed_ports_scanned(port: u16)
    requires
        severity_of(port) != Severity::Info || security_tag_of(port) is Some || http_probe_port(port)
            || banner_probe_port(port),
    ensures
        thorough_ports().contains(port),
{
    lemma_thorough_ports_listed(port);
}

/// The name of the usual service on a TCP port.
pub fn service_name(port: u16) -> (name: &'static str)
    ensures
        name@ == service_name_of(port),
{
    match port {
        20 => "ftp-data",
        21 => "ftp",
        22 => "ssh",
        23 => "telnet",
        25 => "smtp",
        53 => "dns",
        69 => "tftp",
        111 => "rpcbind",
        80 => "http",
        81 => "http-alt",
        88 => "kerberos",
        110 => "pop3",
        135 => "msrpc",
        137 => "netbios-ns",
        138 => "netbios-dgm",
        139 => "netbios",
        143 => "imap",
        161 => "snmp",
        162 => "snmp-trap",
        389 => "ldap",
        443 => "https",
        445 => "smb",
        465 => "smtps",
        500 => "ike",
        515 => "lpd-printer",
        548 => "afp",
        554 => "rtsp",
        587 => "smtp-submission",
        631 => "ipp",
        636 => "ldaps",
        873 => "rsync",
        902 => "vmware-auth",
        993 => "imaps",
        995 => "pop3s",
        1025 => "windows-rpc-ephemeral",
        1080 => "socks-proxy",
        1099 => "java-rmi",
        1194 => "openvpn",
        1433 => "mssql",
        1521 => "oracle-db",
        1723 => "pptp",
        1883 => "mqtt",
        1900 => "ssdp",
        2049 => "nfs",
        2082 => "cpanel",
        2083 => "cpanel-https",
        2181 => "zookeeper",
        2375 => "docker-api",
        2376 => "docker-api-tls",
        2379 => "etcd-client",
        2380 => "etcd-peer",
        3000 => "dev-web",
        3128 => "http-proxy",
        3268 => "ldap-global-catalog",
        3269 => "ldaps-global-catalog",
        3306 => "mysql-mariadb",
        5432 => "postgresql",
        3478 => "stun-turn",
        5000 => "upnp-dev-web",
        5001 => "nas-admin-https",
        5060 => "sip",
        5061 => "sips",
        5353 => "mdns",
        5357 => "wsdapi",
        5555 => "android-debug-bridge",
        5601 => "kibana",
        5672 => "amqp-rabbitmq",
        5901 => "vnc-1",
        5902 => "vnc-2",
        5984 => "couchdb",
        6379 => "redis",
        6000 => "x11",
        6443 => "kubernetes-api",
        6667 => "irc",
        7000 => "airplay",
        7001 => "weblogic",
        7002 => "weblogic-ssl",
        7100 => "airplay-alt",
        8000 => "http-dev",
        8008 => "http-alt",
        8009 => "ajp",
        8060 => "roku-ecp",
        8086 => "influxdb",
        8080 => "http-alt",
        8081 => "http-alt",
        8181 => "http-alt",
        8443 => "https-alt",
        8530 => "wsus",
        8531 => "wsus-ssl",
        8883 => "mqtt-tls",
        8888 => "http-alt",
        9000 => "admin-dev-service",
        9042 => "cassandra",
        9092 => "kafka",
        9093 => "kafka-tls",
        3389 => "rdp",
        5900 => "vnc",
        5985 => "winrm-http",
        5986 => "winrm-https",
        9200 => "elasticsearch-opensearch",
        9300 => "elasticsearch-transport",
        9443 => "https-admin-alt",
        9100 => "jetdirect",
        9999 => "admin-alt",
        10000 => "webmin",
        10250 => "kubelet",
        11211 => "memcached",
        15672 => "rabbitmq-management",
        62078 => "ios-lockdown",
        27017 => "mongodb",
        50070 => "hadoop-name-node",
        _ => "unknown",
    }
}

/// The remediation advice for an exposed TCP port.
pub open spec fn remediation_of(port: u16) -> Seq<char> {
    match port {
        22 => "Confirm SSH is required; restrict by firewall or admin subnet; disable password auth where possible."@,
        23 => "Disable Telnet; replace with SSH."@,
        53 => "Confirm DNS exposure is intended and not an open resolver."@,
        80 => "Confirm HTTP admin/service exposure is intended; prefer HTTPS and authentication."@,
        135 => "Review Windows RPC exposure; restrict to trusted local hosts where possible."@,
        139 => "Review legacy NetBIOS exposure; disable if not required."@,
        443 => "Confirm HTTPS service/admin panel exposure is intended and patched."@,
        445 => "Review SMB exposure; disable SMBv1; restrict file sharing to trusted hosts."@,
        631 => "Review printer/IPP exposure; restrict printer management access."@,
        111 => "Review RPC bind exposure; restrict NFS/RPC services to trusted hosts."@,
        21 => "Review FTP exposure; prefer SFTP/SSH or restrict to trusted hosts."@,
        25 | 110 | 143 | 465 | 587 | 993 | 995 => "Review mail service exposure; confirm it is intentional, patched, and access-controlled."@,
        389 | 636 | 3268 | 3269 => "Review directory service exposure; restrict LDAP/LDAPS to trusted systems."@,
        548 | 873 => "Review file sharing exposure; restrict shares to trusted clients."@,
        902 => "Review VMware management exposure; restrict to admin hosts."@,
        1080 | 3128 => "Review proxy exposure; prevent unauthorized proxy use."@,
        1099 => "Review Java RMI exposure; restrict to trusted application hosts."@,
        1883 | 8883 => "Review MQTT exposure; require authentication and restrict clients."@,
        5555 => "Review Android Debug Bridge exposure; disable ADB over network unless explicitly needed."@,
        2375 | 2376 => "Review Docker API exposure; never expose unauthenticated Docker API."@,
        2379 | 2380 => "Review etcd exposure; restrict to cluster hosts and require authentication."@,
        1433 => "Review SQL Server exposure; restrict by firewall and require strong authentication."@,
        1521 => "Review Oracle Database listener exposure; restrict to application/admin hosts."@,
        2049 => "Review NFS exposure; restrict exports and client networks."@,
        2181 => "Review ZooKeeper exposure; restrict to cluster/admin hosts."@,
        3306 => "Review MySQL/MariaDB exposure; restrict by firewall and bind only where needed."@,
        5432 => "Review PostgreSQL exposure; restrict by firewall and pg_hba policy."@,
        5601 => "Review Kibana exposure; require authentication and restrict management access."@,
        5672 => "Review AMQP/RabbitMQ exposure; restrict brokers to trusted clients."@,
        5901 | 5902 => "Restrict or disable VNC; avoid unauthenticated/weakly authenticated remote desktop exposure."@,
        5984 => "Review CouchDB exposure; require authentication and restrict network access."@,
        6379 => "Review Redis exposure; bind locally or restrict by firewall; require authentication where supported."@,
        8086 => "Review InfluxDB exposure; require authentication and restrict clients."@,
        8080 => "Review alternate HTTP admin/service exposure."@,
        8443 => "Review alternate HTTPS admin/service exposure."@,
        8009 => "Review AJP exposure; restrict to local reverse proxies or trusted hosts."@,
        7000 | 7100 => "Review AirPlay exposure; confirm media-sharing access is intended."@,
        8060 => "Review Roku control API exposure; restrict guest/client network access where possible."@,
        6443 => "Review Kubernetes API exposure; restrict to trusted admin networks."@,
        9042 => "Review Cassandra exposure; restrict to application/cluster hosts."@,
        9092 => "Review Kafka exposure; restrict broker listeners to trusted clients."@,
        9093 => "Review Kafka TLS exposure; restrict broker listeners to trusted clients."@,
        3389 => "Restrict RDP; require NLA; avoid broad LAN exposure unless operationally required."@,
        5900 => "Restrict or disable VNC; avoid unauthenticated/weakly authenticated remote desktop exposure."@,
        5985 => "Review WinRM HTTP exposure; prefer HTTPS and restrict management scope."@,
        5986 => "Review WinRM HTTPS exposure; restrict management scope."@,
        9200 => "Review Elasticsearch/OpenSearch exposure; require authentication and restrict network access."@,
        9300 => "Review Elasticsearch/OpenSearch transport exposure; restrict to cluster hosts."@,
        9100 => "Review raw printer port exposure; restrict to trusted print clients."@,
        10250 => "Review kubelet exposure; restrict to cluster/control-plane hosts."@,
        11211 => "Review Memcached exposure; bind locally or restrict by firewall."@,
        15672 => "Review RabbitMQ management UI exposure; require authentication and restrict admins."@,
        62078 => "Review iOS lockdown service exposure; this usually indicates an Apple mobile device."@,
        27017 => "Review MongoDB exposure; require authentication and restrict by firewall."@,
        50070 => "Review Hadoop web UI exposure; restrict to trusted admin hosts."@,
        _ => "Review whether this exposed service is required."@,
    }
}

/// The remediation advice for an exposed TCP port.
pub fn remediation_hint(port: u16) -> (hint: &'static str)
    ensures
        hint@ == remediation_of(port),
{
    match port {
        22 => "Confirm SSH is required; restrict by firewall or admin subnet; disable password auth where possible.",
        23 => "Disable Telnet; replace with SSH.",
        53 => "Confirm DNS exposure is intended and not an open resolver.",
        80 => "Confirm HTTP admin/service exposure is intended; prefer HTTPS and authentication.",
        135 => "Review Windows RPC exposure; restrict to trusted local hosts where possible.",
        139 => "Review legacy NetBIOS exposure; disable if not required.",
        443 => "Confirm HTTPS service/admin panel exposure is intended and patched.",
        445 => "Review SMB exposure; disable SMBv1; restrict file sharing to trusted hosts.",
        631 => "Review printer/IPP exposure; restrict printer management access.",
        111 => "Review RPC bind exposure; restrict NFS/RPC services to trusted hosts.",
        21 => "Review FTP exposure; prefer SFTP/SSH or restrict to trusted hosts.",
        25 | 110 | 143 | 465 | 587 | 993 | 995 => "Review mail service exposure; confirm it is intentional, patched, and access-controlled.",
        389 | 636 | 3268 | 3269 => "Review directory service exposure; restrict LDAP/LDAPS to trusted systems.",
        548 | 873 => "Review file sharing exposure; restrict shares to trusted clients.",
        902 => "Review VMware management exposure; restrict to admin hosts.",
        1080 | 3128 => "Review proxy exposure; prevent unauthorized proxy use.",
        1099 => "Review Java RMI exposure; restrict to trusted application hosts.",
        1883 | 8883 => "Review MQTT exposure; require authentication and restrict clients.",
        5555 => "Review Android Debug Bridge exposure; disable ADB over network unless explicitly needed.",
        2375 | 2376 => "Review Docker API exposure; never expose unauthenticated Docker API.",
        2379 | 2380 => "Review etcd exposure; restrict to cluster hosts and require authentication.",
        1433 => "Review SQL Server exposure; restrict by firewall and require strong authentication.",
        1521 => "Review Oracle Database listener exposure; restrict to application/admin hosts.",
        2049 => "Review NFS exposure; restrict exports and client networks.",
        2181 => "Review ZooKeeper exposure; restrict to cluster/admin hosts.",
        3306 => "Review MySQL/MariaDB exposure; restrict by firewall and bind only where needed.",
        5432 => "Review PostgreSQL exposure; restrict by firewall and pg_hba policy.",
        5601 => "Review Kibana exposure; require authentication and restrict management access.",
        5672 => "Review AMQP/RabbitMQ exposure; restrict brokers to trusted clients.",
        5901 | 5902 => "Restrict or disable VNC; avoid unauthenticated/weakly authenticated remote desktop exposure.",
        5984 => "Review CouchDB exposure; require authentication and restrict network access.",
        6379 => "Review Redis exposure; bind locally or restrict by firewall; require authentication where supported.",
        8086 => "Review InfluxDB exposure; require authentication and restrict clients.",
        8080 => "Review alternate HTTP admin/service exposure.",
        8443 => "Review alternate HTTPS admin/service exposure.",
        8009 => "Review AJP exposure; restrict to local reverse proxies or trusted hosts.",
        7000 | 7100 => "Review AirPlay exposure; confirm media-sharing access is intended.",
        8060 => "Review Roku control API exposure; restrict guest/client network access where possible.",
        6443 => "Review Kubernetes API exposure; restrict to trusted admin networks.",
        9042 => "Review Cassandra exposure; restrict to application/cluster hosts.",
        9092 => "Review Kafka exposure; restrict broker listeners to trusted clients.",
        9093 => "Review Kafka TLS exposure; restrict broker listeners to trusted clients.",
        3389 => "Restrict RDP; require NLA; avoid broad LAN exposure unless operationally required.",
        5900 => "Restrict or disable VNC; avoid unauthenticated/weakly authenticated remote desktop exposure.",
        5985 => "Review WinRM HTTP exposure; prefer HTTPS and restrict management scope.",
        5986 => "Review WinRM HTTPS exposure; restrict management scope.",
        9200 => "Review Elasticsearch/OpenSearch exposure; require authentication and restrict network access.",
        9300 => "Review Elasticsearch/OpenSearch transport exposure; restrict to cluster hosts.",
        9100 => "Review raw printer port exposure; restrict to trusted print clients.",
        10250 => "Review kubelet exposure; restrict to cluster/control-plane hosts.",
        11211 => "Review Memcached exposure; bind locally or restrict by firewall.",
        15672 => "Review RabbitMQ management UI exposure; require authentication and restrict admins.",
        62078 => "Review iOS lockdown service exposure; this usually indicates an Apple mobile device.",
        27017 => "Review MongoDB exposure; require authentication and restrict by firewall.",
        50070 => "Review Hadoop web UI exposure; restrict to trusted admin hosts.",
        _ => "Review whether this exposed service is required.",
    }
}

} // verus!
