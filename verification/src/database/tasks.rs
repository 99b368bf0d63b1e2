use vstd::prelude::*;
use crate::alignment::{
    aligned_audio, aligned_sensor, alignment_fits, alignment_offset, align_session_data_internal,
    chunk_views, flatten_audio, flattened, AudioChunk,
};
use crate::types::DataPoint;

verus! {

/// The name of a directory: `name`, or `fallback` when `name` is empty.
pub open spec fn directory_name(name: Seq<char>, fallback: Seq<char>) -> Seq<char> {
    if name.len() == 0 {
        fallback
    } else {
        name
    }
}

/// The directory that holds the exported sessions of a user in a scenario.
pub open spec fn export_directory_of(username: Seq<char>, scenario: Seq<char>) -> Seq<char> {
    "data_export/"@ + directory_name(username, "unknown_user"@) + "/"@ + directory_name(
        scenario,
        "standard"@,
    )
}

/// The file to which a session is exported. That this file exists is the
/// one sign that the session was exported.
pub open spec fn export_path_of(
    username: Seq<char>,
    scenario: Seq<char>,
    session_id: Seq<char>,
) -> Seq<char> {
    export_directory_of(username, scenario) + "/"@ + session_id + ".csv"@
}

/// The directory that holds the exported sessions of a user in a scenario.
pub fn export_directory(username: &str, scenario: &str) -> (directory: String)
    ensures
        directory@ == export_directory_of(username@, scenario@),
{
    let mut directory = String::from_str("data_export/");
    if username.is_empty() {
        directory.append("unknown_user");
    } else {
        directory.append(username);
    }
    directory.append("/");
    if scenario.is_empty() {
        directory.append("standard");
    } else {
        directory.append(scenario);
    }
    directory
}

/// The file to which a session is exported.
pub fn export_file_path(username: &str, scenario: &str, session_id: &str) -> (path: String)
    ensures
        path@ == export_path_of(username@, scenario@, session_id@),
{
    let mut path = export_directory(username, scenario);
    path.append("/");
    path.append(session_id);
    path.append(".csv");
    path
}

/// The first line of every exported file.
pub open spec fn csv_header() -> Seq<char> {
    "acc_x,acc_y,acc_z,gyro_x,gyro_y,gyro_z,audio_sample"@
}

/// The six motion fields of one row, separated by commas.
pub open spec fn sensor_fields(p: DataPoint<String>) -> Seq<char> {
    p.x@ + ","@ + p.y@ + ","@ + p.z@ + ","@ + p.gx@ + ","@ + p.gy@ + ","@ + p.gz@
}

/// Row `i` of an export: reading `i` and audio sample `i` side by side. Where
/// one stream has ended its fields are left blank.
pub open spec fn csv_row(sensor: Seq<DataPoint<String>>, audio: Seq<String>, i: int) -> Seq<char> {
    if i < sensor.len() && i < audio.len() {
        sensor_fields(sensor[i]) + ","@ + audio[i]@
    } else if i < sensor.len() {
        sensor_fields(sensor[i]) + ","@
    } else {
        ",,,,,,"@ + audio[i]@
    }
}

/// The data rows of an export: as many as the longer stream has items.
pub open spec fn csv_rows(sensor: Seq<DataPoint<String>>, audio: Seq<String>) -> Seq<Seq<char>> {
    Seq::new(
        if sensor.len() > audio.len() {
            sensor.len()
        } else {
            audio.len()
        },
        |i: int| csv_row(sensor, audio, i),
    )
}

fn push_sensor_fields(line: &mut String, p: &DataPoint<String>)
    ensures
        final(line)@ == old(line)@ + sensor_fields(*p),
{
    line.append(p.x.as_str());
    line.append(",");
    line.append(p.y.as_str());
    line.append(",");
    line.append(p.z.as_str());
    line.append(",");
    line.append(p.gx.as_str());
    line.append(",");
    line.append(p.gy.as_str());
    line.append(",");
    line.append(p.gz.as_str());
    assert(line@ =~= old(line)@ + sensor_fields(*p));
}

/// The lines of an exported file, header first, from readings and audio
/// samples whose values are already written out as text.
pub fn csv_lines(sensor: &Vec<DataPoint<String>>, audio: &Vec<String>) -> (lines: Vec<String>)
    ensures
        lines@.len() == 1 + csv_rows(sensor@, audio@).len(),
        lines@[0]@ == csv_header(),
        forall|i: int|
            0 <= i < csv_rows(sensor@, audio@).len() ==> (#[trigger] lines@[i + 1])@ == csv_rows(
                sensor@,
                audio@,
            )[i],
{
    let mut lines: Vec<String> = Vec::new();
    lines.push(String::from_str("acc_x,acc_y,acc_z,gyro_x,gyro_y,gyro_z,audio_sample"));
    let rows: usize = if sensor.len() > audio.len() {
        sensor.len()
    } else {
        audio.len()
    };
    let mut i: usize = 0;
    while i < rows
        invariant
            i <= rows,
            rows == csv_rows(sensor@, audio@).len(),
            lines@.len() == 1 + i,
            lines@[0]@ == csv_header(),
            forall|j: int| 0 <= j < i ==> (#[trigger] lines@[j + 1])@ == csv_row(sensor@, audio@, j),
        decreases rows - i,
    {
        let mut line = String::new();
        if i < sensor.len() {
            push_sensor_fields(&mut line, &sensor[i]);
            line.append(",");
        } else {
            line.append(",,,,,,");
        }
        if i < audio.len() {
            line.append(audio[i].as_str());
        }
        assert(line@ =~= csv_row(sensor@, audio@, i as int));
        lines.push(line);
        i += 1;
    }
    lines
}

/// When a session has no fewer readings than audio samples, its export has
/// one row for each reading: the rows that an audio sample falls to hold all
/// seven fields, and each row after them ends with its seventh field blank.
pub proof fn lemma_rows_follow_the_longer_stream(
    sensor: Seq<DataPoint<String>>,
    audio: Seq<String>,
)
    requires
        sensor.len() >= audio.len(),
    ensures
        csv_rows(sensor, audio).len() == sensor.len(),
        forall|i: int|
            0 <= i < audio.len() ==> #[trigger] csv_rows(sensor, audio)[i] == sensor_fields(
                sensor[i],
            ) + ","@ + audio[i]@,
        forall|i: int|
            audio.len() <= i < sensor.len() ==> #[trigger] csv_rows(sensor, audio)[i]
                == sensor_fields(sensor[i]) + ","@,
{
}

/// What is written when a session is exported: where, and the aligned
/// streams row by row.
#[derive(Debug)]
pub struct SessionExport<V, A> {
    pub directory: String,
    pub file_path: String,
    pub sensor: Vec<DataPoint<V>>,
    pub audio: Vec<A>,
    pub common_time_range_ms: i64,
}

/// Prepares the export of a session from what the store holds of it: the
/// file's place, the aligned readings and the audio samples in one run.
/// A session without readings and without audio is refused.
pub fn export_session_to_csv_internal<V: Copy, A: Copy>(
    username: &str,
    scenario: &str,
    session_id: &str,
    acc_data: &[DataPoint<V>],
    audio_data: &[AudioChunk<A>],
) -> (export: Result<SessionExport<V, A>, String>)
    requires
        alignment_fits(acc_data@, chunk_views(audio_data@)),
    ensures
        export is Err <==> acc_data@.len() == 0 && audio_data@.len() == 0,
        export matches Err(reason) ==> reason@ == "No data in session"@,
        export matches Ok(e) ==> {
            &&& e.directory@ == export_directory_of(username@, scenario@)
            &&& e.file_path@ == export_path_of(username@, scenario@, session_id@)
            &&& e.sensor@ == aligned_sensor(acc_data@, chunk_views(audio_data@))
            &&& e.audio@ == flattened(aligned_audio(acc_data@, chunk_views(audio_data@)))
            &&& e.common_time_range_ms == alignment_offset(acc_data@, chunk_views(audio_data@))
        },
{
    if acc_data.len() == 0 && audio_data.len() == 0 {
        return Err(String::from_str("No data in session"));
    }
    let (sensor, merged, common_time_range_ms) = align_session_data_internal(acc_data, audio_data);
    let audio = flatten_audio(merged.as_slice());
    Ok(
        SessionExport {
            directory: export_directory(username, scenario),
            file_path: export_file_path(username, scenario, session_id),
            sensor,
            audio,
            common_time_range_ms,
        },
    )
}

} // verus!
