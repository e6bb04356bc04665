//! The static station registry: a fixed mapping from a short station key to
//! the station's display name and observation-feed URL.

use vstd::hash_map::StringHashMap;
use vstd::prelude::*;

verus! {

/// A station as callers see it: its display name and its feed URL.
pub struct WeatherLocation {
    pub display_name: String,
    pub url: String,
}

/// The mathematical content of a [`WeatherLocation`].
pub struct WeatherLocationView {
    pub display_name: Seq<char>,
    pub url: Seq<char>,
}

impl View for WeatherLocation {
    type V = WeatherLocationView;

    open spec fn view(&self) -> WeatherLocationView {
        WeatherLocationView { display_name: self.display_name@, url: self.url@ }
    }
}

/// The registry rows: key, display name, and the meteorological service's
/// numeric station identifier, from which the feed URL is built.
pub open spec fn station_table() -> Seq<(Seq<char>, Seq<char>, i32)> {
    seq![
        ("rajakari"@, "Turku Rajakari"@, 100947),
        ("haapasaari"@, "Kotka Haapasaari"@, 101042),
        ("rankki"@, "Kotka Rankki"@, 101030),
        ("orrengrund"@, "Loviisa Orrengrund"@, 101039),
        ("kilpilahti_satama"@, "Porvoo Kilpilahti satama"@, 100683),
        ("emasalo"@, "Porvoo Em\u{e4}salo"@, 101023),
        ("kalbadagrund"@, "Porvoo Kalb\u{e5}dagrund"@, 101022),
        ("vuosaari_satama"@, "Helsinki Vuosaari satama"@, 151028),
        ("itatoukki"@, "Sipoo It\u{e4}toukki"@, 105392),
        ("harmaja"@, "Helsinki Harmaja"@, 100996),
        ("helsinki_majakka"@, "Helsinki Helsingin Majakka"@, 101003),
        ("makiluoto"@, "Kirkkonummi M\u{e4}kiluoto"@, 100997),
        ("bogaskar"@, "Inkoo B\u{e5}gask\u{e4}r"@, 100969),
        ("jussaro"@, "Raasepori Jussar\u{f6}"@, 100965),
        ("tulliniemi"@, "Hanko Tulliniemi"@, 100946),
        ("russaro"@, "Hanko Russar\u{f6}"@, 100932),
        ("vano"@, "Kemi\u{f6}nsaari V\u{e4}n\u{f6}"@, 100945),
        ("uto"@, "Parainen Ut\u{f6}"@, 100908),
        ("bogskar"@, "K\u{f6}kar Bogsk\u{e4}r"@, 100921),
        ("fagerholm"@, "Parainen Fagerholm"@, 100924),
        ("kirkonkyla"@, "Kumlinge kirkonkyl\u{e4}"@, 100928),
        ("langnas_satama"@, "Lumparland L\u{e5}ngn\u{e4}s satama"@, 151048),
        ("lansi_satama"@, "Maarianhamina L\u{e4}nsisatama"@, 151029),
        ("lotsberget"@, "Maarianhamina Lotsberget"@, 107383),
        ("nyhamn"@, "Lemland Nyhamn"@, 100909),
        ("market"@, "Hammarland M\u{e4}rket"@, 100919),
        ("isokari"@, "Kustavi Isokari"@, 101059),
        ("kylmapihlaja"@, "Rauma Kylm\u{e4}pihlaja"@, 101061),
        ("tahkoluoto_satama"@, "Pori Tahkoluoto satama"@, 101267),
        ("kristiinankaupunki_majakka"@, "Kristiinankaupunki Majakka"@, 101268),
        ("salgrund"@, "Kaskinen S\u{e4}lgrund"@, 101256),
        ("bredskaret"@, "Korsn\u{e4}s Bredsk\u{e4}ret"@, 101479),
        ("strommingsbadan"@, "Maalahti Str\u{f6}mmingsb\u{e5}dan"@, 101481),
        ("valassaaret"@, "Mustalahti Valassaaret"@, 101464),
        ("kallan"@, "Pietarsaari Kallan"@, 101660),
        ("tankar"@, "Kokkola Tankar"@, 101661),
        ("ulkokalla"@, "Kalajoki Ulkokalla"@, 101673),
        ("nahkiainen"@, "Raahe Nahkiainen"@, 101775),
        ("lapaluoto_satama"@, "Raahe Lapaluoto satama"@, 101785),
        ("vihresaari_satama"@, "Oulu Vihre\u{e4}saari satama"@, 101794),
        ("marjaniemi"@, "Hailuoto Marjaniemi"@, 101784),
        ("kemi_majakka"@, "Kemi I Majakka"@, 101783),
        ("ajos"@, "Kemi Ajos"@, 101846),
        ("pulkkilanharju"@, "Asikkala Pulkkilanharju"@, 101185),
        ("judinsalo"@, "Luhanka Judinsalo"@, 101362),
        ("hiekkapakka"@, "Lappeenranta Hiekkapakka"@, 101252),
        ("rukkasluoto"@, "Rantasalmi Rukkasluoto"@, 101436),
        ("tuiskavanluoto"@, "Liperi Tuiskavanluoto"@, 101628),
        ("ritoniemi"@, "Kuopio Ritoniemi"@, 101580),
        ("seitalaassa"@, "Inari Seitalaassa"@, 129963),
    ]
}

/// The fixed part of every feed URL; the station identifier follows it.
pub open spec fn weather_url_prefix() -> Seq<char> {
    "https://opendata.fmi.fi/wfs?service=WFS&version=2.0.0&request=getFeature&parameters=Temperature,WindDirection,WindSpeedMS,WindGust&storedquery_id=fmi::observations::weather::simple&fmisid="@
}

/// The decimal digit character for `d`.
pub open spec fn digit_char_of(d: int) -> char {
    if d == 0 {
        '0'
    } else if d == 1 {
        '1'
    } else if d == 2 {
        '2'
    } else if d == 3 {
        '3'
    } else if d == 4 {
        '4'
    } else if d == 5 {
        '5'
    } else if d == 6 {
        '6'
    } else if d == 7 {
        '7'
    } else if d == 8 {
        '8'
    } else {
        '9'
    }
}

/// The decimal digit string of a non-negative number.
pub open spec fn decimal_digits(n: nat) -> Seq<char>
    decreases n,
{
    if n < 10 {
        seq![digit_char_of(n as int)]
    } else {
        decimal_digits(n / 10).push(digit_char_of((n % 10) as int))
    }
}

/// The decimal string of `n`, with a leading minus sign when negative.
pub open spec fn decimal_int(n: int) -> Seq<char> {
    if n < 0 {
        seq!['-'] + decimal_digits((-n) as nat)
    } else {
        decimal_digits(n as nat)
    }
}

/// The feed URL of the station with numeric identifier `id`.
pub open spec fn weather_url_spec(id: int) -> Seq<char> {
    weather_url_prefix() + decimal_int(id)
}

/// The string slice holding exactly the decimal digit character for `d`.
fn digit_str(d: u64) -> (r: &'static str)
    requires
        d < 10,
    ensures
        r@ == seq![digit_char_of(d as int)],
{
    let r: &'static str = if d == 0 {
        "0"
    } else if d == 1 {
        "1"
    } else if d == 2 {
        "2"
    } else if d == 3 {
        "3"
    } else if d == 4 {
        "4"
    } else if d == 5 {
        "5"
    } else if d == 6 {
        "6"
    } else if d == 7 {
        "7"
    } else if d == 8 {
        "8"
    } else {
        "9"
    };
    proof {
        reveal_strlit("0");
        reveal_strlit("1");
        reveal_strlit("2");
        reveal_strlit("3");
        reveal_strlit("4");
        reveal_strlit("5");
        reveal_strlit("6");
        reveal_strlit("7");
        reveal_strlit("8");
        reveal_strlit("9");
        assert(r@ =~= seq![digit_char_of(d as int)]);
    }
    r
}

/// The decimal digit string of `n`.
fn decimal_string_u64(n: u64) -> (r: String)
    ensures
        r@ == decimal_digits(n as nat),
    decreases n,
{
    if n < 10 {
        String::from_str(digit_str(n))
    } else {
        let mut s = decimal_string_u64(n / 10);
        s.append(digit_str(n % 10));
        proof {
            assert(decimal_digits((n / 10) as nat) + seq![digit_char_of((n % 10) as int)]
                =~= decimal_digits((n / 10) as nat).push(digit_char_of((n % 10) as int)));
        }
        s
    }
}

/// The observation-feed URL for the station with the given numeric
/// identifier: the fixed query followed by the identifier in decimal.
pub fn create_weather_url(station_id: i32) -> (r: String)
    ensures
        r@ == weather_url_spec(station_id as int),
{
    let mut url = String::from_str(
        "https://opendata.fmi.fi/wfs?service=WFS&version=2.0.0&request=getFeature&parameters=Temperature,WindDirection,WindSpeedMS,WindGust&storedquery_id=fmi::observations::weather::simple&fmisid=",
    );
    if station_id < 0 {
        let magnitude = (-(station_id as i64)) as u64;
        url.append("-");
        let digits = decimal_string_u64(magnitude);
        url.append(digits.as_str());
        proof {
            reveal_strlit("-");
            assert("-"@ =~= seq!['-']);
            assert(url@ =~= weather_url_spec(station_id as int));
        }
    } else {
        let digits = decimal_string_u64(station_id as u64);
        url.append(digits.as_str());
    }
    url
}

/// The view entry of row `i` of the table: its display name and its URL.
pub open spec fn station_view(i: int) -> WeatherLocationView {
    WeatherLocationView {
        display_name: station_table()[i].1,
        url: weather_url_spec(station_table()[i].2 as int),
    }
}

/// The registry map built from the first `n` rows of the table.
pub open spec fn station_map_upto(n: int) -> Map<Seq<char>, WeatherLocationView>
    decreases n,
{
    if n <= 0 {
        Map::empty()
    } else {
        station_map_upto(n - 1).insert(station_table()[n - 1].0, station_view(n - 1))
    }
}

/// The full registry map: every station key to its display name and URL.
pub open spec fn station_map() -> Map<Seq<char>, WeatherLocationView> {
    station_map_upto(station_table().len() as int)
}

/// The station registry, keyed by the short station key.
pub struct StationMap {
    m: StringHashMap<WeatherLocation>,
}

impl View for StationMap {
    type V = Map<Seq<char>, WeatherLocationView>;

    closed spec fn view(&self) -> Map<Seq<char>, WeatherLocationView> {
        self.m@.map_values(|w: WeatherLocation| w@)
    }
}

impl StationMap {
    /// Looks a station up by its key.
    pub fn get<'a>(&'a self, key: &str) -> (r: Option<&'a WeatherLocation>)
        ensures
            (match r {
                Some(location) => self@.contains_key(key@) && location@ == self@[key@],
                None => !self@.contains_key(key@),
            }),
    {
        self.m.get(key)
    }

    /// Whether a station with this key exists.
    pub fn contains_key(&self, key: &str) -> (r: bool)
        ensures
            r == self@.contains_key(key@),
    {
        self.m.contains_key(key)
    }
}

/// Row `i` of the registry table.
fn station_row(i: usize) -> (row: (&'static str, &'static str, i32))
    requires
        i < 50,
    ensures
        row.0@ == station_table()[i as int].0,
        row.1@ == station_table()[i as int].1,
        row.2 == station_table()[i as int].2,
{
    match i {
        0 => ("rajakari", "Turku Rajakari", 100947),
        1 => ("haapasaari", "Kotka Haapasaari", 101042),
        2 => ("rankki", "Kotka Rankki", 101030),
        3 => ("orrengrund", "Loviisa Orrengrund", 101039),
        4 => ("kilpilahti_satama", "Porvoo Kilpilahti satama", 100683),
        5 => ("emasalo", "Porvoo Em\u{e4}salo", 101023),
        6 => ("kalbadagrund", "Porvoo Kalb\u{e5}dagrund", 101022),
        7 => ("vuosaari_satama", "Helsinki Vuosaari satama", 151028),
        8 => ("itatoukki", "Sipoo It\u{e4}toukki", 105392),
        9 => ("harmaja", "Helsinki Harmaja", 100996),
        10 => ("helsinki_majakka", "Helsinki Helsingin Majakka", 101003),
        11 => ("makiluoto", "Kirkkonummi M\u{e4}kiluoto", 100997),
        12 => ("bogaskar", "Inkoo B\u{e5}gask\u{e4}r", 100969),
        13 => ("jussaro", "Raasepori Jussar\u{f6}", 100965),
        14 => ("tulliniemi", "Hanko Tulliniemi", 100946),
        15 => ("russaro", "Hanko Russar\u{f6}", 100932),
        16 => ("vano", "Kemi\u{f6}nsaari V\u{e4}n\u{f6}", 100945),
        17 => ("uto", "Parainen Ut\u{f6}", 100908),
        18 => ("bogskar", "K\u{f6}kar Bogsk\u{e4}r", 100921),
        19 => ("fagerholm", "Parainen Fagerholm", 100924),
        20 => ("kirkonkyla", "Kumlinge kirkonkyl\u{e4}", 100928),
        21 => ("langnas_satama", "Lumparland L\u{e5}ngn\u{e4}s satama", 151048),
        22 => ("lansi_satama", "Maarianhamina L\u{e4}nsisatama", 151029),
        23 => ("lotsberget", "Maarianhamina Lotsberget", 107383),
        24 => ("nyhamn", "Lemland Nyhamn", 100909),
        25 => ("market", "Hammarland M\u{e4}rket", 100919),
        26 => ("isokari", "Kustavi Isokari", 101059),
        27 => ("kylmapihlaja", "Rauma Kylm\u{e4}pihlaja", 101061),
        28 => ("tahkoluoto_satama", "Pori Tahkoluoto satama", 101267),
        29 => ("kristiinankaupunki_majakka", "Kristiinankaupunki Majakka", 101268),
        30 => ("salgrund", "Kaskinen S\u{e4}lgrund", 101256),
        31 => ("bredskaret", "Korsn\u{e4}s Bredsk\u{e4}ret", 101479),
        32 => ("strommingsbadan", "Maalahti Str\u{f6}mmingsb\u{e5}dan", 101481),
        33 => ("valassaaret", "Mustalahti Valassaaret", 101464),
        34 => ("kallan", "Pietarsaari Kallan", 101660),
        35 => ("tankar", "Kokkola Tankar", 101661),
        36 => ("ulkokalla", "Kalajoki Ulkokalla", 101673),
        37 => ("nahkiainen", "Raahe Nahkiainen", 101775),
        38 => ("lapaluoto_satama", "Raahe Lapaluoto satama", 101785),
        39 => ("vihresaari_satama", "Oulu Vihre\u{e4}saari satama", 101794),
        40 => ("marjaniemi", "Hailuoto Marjaniemi", 101784),
        41 => ("kemi_majakka", "Kemi I Majakka", 101783),
        42 => ("ajos", "Kemi Ajos", 101846),
        43 => ("pulkkilanharju", "Asikkala Pulkkilanharju", 101185),
        44 => ("judinsalo", "Luhanka Judinsalo", 101362),
        45 => ("hiekkapakka", "Lappeenranta Hiekkapakka", 101252),
        46 => ("rukkasluoto", "Rantasalmi Rukkasluoto", 101436),
        47 => ("tuiskavanluoto", "Liperi Tuiskavanluoto", 101628),
        48 => ("ritoniemi", "Kuopio Ritoniemi", 101580),
        _ => ("seitalaassa", "Inari Seitalaassa", 129963),
    }
}

/// The key and display name of every station, in table order: what a station
/// index page lists.
pub fn station_entries() -> (v: Vec<(String, String)>)
    ensures
        v@.len() == station_table().len(),
        forall|i: int|
            0 <= i < v@.len() ==> #[trigger] v@[i].0@ == station_table()[i].0 && v@[i].1@
                == station_table()[i].1,
{
    let mut v: Vec<(String, String)> = Vec::new();
    let mut i: usize = 0;
    while i < 50
        invariant
            0 <= i <= 50,
            v@.len() == i,
            forall|j: int|
                0 <= j < i ==> #[trigger] v@[j].0@ == station_table()[j].0 && v@[j].1@
                    == station_table()[j].1,
        decreases 50 - i,
    {
        let row = station_row(i);
        v.push((String::from_str(row.0), String::from_str(row.1)));
        i = i + 1;
    }
    proof {
        assert(station_table().len() == 50);
    }
    v
}

/// Builds the station registry: every key of the table maps to that station's
/// display name and feed URL.
pub fn create_station_hashmap() -> (m: StationMap)
    ensures
        m@ == station_map(),
{
    let mut inner: StringHashMap<WeatherLocation> = StringHashMap::new();
    proof {
        assert(inner@.map_values(|w: WeatherLocation| w@) =~= station_map_upto(0));
    }
    let mut i: usize = 0;
    while i < 50
        invariant
            0 <= i <= 50,
            inner@.map_values(|w: WeatherLocation| w@) == station_map_upto(i as int),
        decreases 50 - i,
    {
        let row = station_row(i);
        let location = WeatherLocation {
            display_name: String::from_str(row.1),
            url: create_weather_url(row.2),
        };
        let ghost before = inner@;
        inner.insert(String::from_str(row.0), location);
        proof {
            assert(inner@.map_values(|w: WeatherLocation| w@) =~= before.map_values(
                |w: WeatherLocation| w@,
            ).insert(station_table()[i as int].0, station_view(i as int)));
        }
        i = i + 1;
    }
    proof {
        assert(station_table().len() == 50);
    }
    StationMap { m: inner }
}

} // verus!
